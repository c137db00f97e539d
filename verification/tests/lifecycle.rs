use overlay_forge::lifecycle::{next_shutdown_wait, ShutdownWait, SHUTDOWN_POLL_NANOS};

const MILLI: u128 = 1_000_000;

#[test]
fn waits_in_short_steps_until_the_duration_is_spent() {
    assert_eq!(SHUTDOWN_POLL_NANOS, 100 * MILLI);
    assert_eq!(next_shutdown_wait(0, 1_000 * MILLI, false), ShutdownWait::Sleep(100 * MILLI));
    assert_eq!(next_shutdown_wait(950 * MILLI, 1_000 * MILLI, false), ShutdownWait::Sleep(50 * MILLI));
    assert_eq!(next_shutdown_wait(1_000 * MILLI, 1_000 * MILLI, false), ShutdownWait::Finish(false));
    assert_eq!(next_shutdown_wait(1_200 * MILLI, 1_000 * MILLI, true), ShutdownWait::Finish(true));
}

#[test]
fn a_shutdown_request_ends_the_wait_early() {
    assert_eq!(next_shutdown_wait(10 * MILLI, 1_000 * MILLI, true), ShutdownWait::Finish(true));
    assert_eq!(next_shutdown_wait(0, 0, false), ShutdownWait::Finish(false));
}
