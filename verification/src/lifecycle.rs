//! The decisions of a wait that a shutdown request cuts short: the waiting
//! itself (the clock, the sleeping and the process-wide flag) belongs to the
//! caller, which asks after each step what to do next.
use vstd::prelude::*;

verus! {

/// The longest single sleep between two looks at the shutdown flag, in
/// nanoseconds (a tenth of a second).
pub const SHUTDOWN_POLL_NANOS: u128 = 100_000_000;

/// What a waiting worker does next.
#[derive(Clone, Copy, Debug, PartialEq, Eq)]
pub enum ShutdownWait {
    /// Stop waiting; the value says whether a shutdown was requested.
    Finish(bool),
    /// Sleep this many nanoseconds, then ask again.
    Sleep(u128),
}

/// The step after `elapsed` of a wait of `duration` (both in nanoseconds),
/// with `requested` the shutdown flag as just read: a finished wait reports
/// the flag; a requested shutdown ends the wait at once; otherwise the
/// worker sleeps for what is left, but never longer than one poll interval.
pub open spec fn wait_step(elapsed: u128, duration: u128, requested: bool) -> ShutdownWait {
    if elapsed >= duration {
        ShutdownWait::Finish(requested)
    } else if requested {
        ShutdownWait::Finish(true)
    } else if duration - elapsed < SHUTDOWN_POLL_NANOS {
        ShutdownWait::Sleep((duration - elapsed) as u128)
    } else {
        ShutdownWait::Sleep(SHUTDOWN_POLL_NANOS)
    }
}

pub fn next_shutdown_wait(elapsed: u128, duration: u128, requested: bool) -> (r: ShutdownWait)
    ensures
        r == wait_step(elapsed, duration, requested),
{
    if elapsed >= duration {
        return ShutdownWait::Finish(requested);
    }
    if requested {
        return ShutdownWait::Finish(true);
    }
    let remaining = duration - elapsed;
    if remaining < SHUTDOWN_POLL_NANOS {
        ShutdownWait::Sleep(remaining)
    } else {
        ShutdownWait::Sleep(SHUTDOWN_POLL_NANOS)
    }
}

/// Every sleep is positive and no longer than one poll interval or than what
/// is left of the wait, so a wait never overshoots and never spins.
pub proof fn wait_sleeps_are_bounded(elapsed: u128, duration: u128, requested: bool)
    ensures
        wait_step(elapsed, duration, requested) matches ShutdownWait::Sleep(n) ==> 0 < n
            <= SHUTDOWN_POLL_NANOS && elapsed + n <= duration,
{
}

/// A requested shutdown always ends the wait, and reports itself.
pub proof fn requested_shutdown_ends_the_wait(elapsed: u128, duration: u128)
    ensures
        wait_step(elapsed, duration, true) == ShutdownWait::Finish(true),
{
}

} // verus!
