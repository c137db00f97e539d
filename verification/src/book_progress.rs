//! Reading progress rules: which positions are accepted, which total a
//! position is measured against, and the status a book moves to when its
//! position changes.
//!
//! Positions and totals are fractional numbers held by the caller; the rules
//! here only depend on how they compare (with zero, with one hundred and with
//! each other), so the caller hands those comparisons in.
use crate::books::BookProgressUnit;
use crate::media::{MediaError, MediaErrorKind, MediaLibraryStatus};
use vstd::prelude::*;

verus! {

/// How a position compares with the values that decide its validity.
#[derive(Clone, Copy, Debug, PartialEq, Eq)]
pub struct ProgressValueCheck {
    /// The position is a finite number and not below zero.
    pub value_is_valid: bool,
    /// No total override was given, or it is finite and not below zero.
    pub total_is_valid: bool,
    /// The position is above one hundred.
    pub value_above_hundred: bool,
}

/// The message that rejects a position, if any.
pub open spec fn progress_problem(unit: BookProgressUnit, check: ProgressValueCheck) -> Option<
    Seq<char>,
> {
    if !check.value_is_valid {
        Some("Book progress cannot be negative."@)
    } else if !check.total_is_valid {
        Some("Book progress total cannot be negative."@)
    } else if unit == BookProgressUnit::Percent && check.value_above_hundred {
        Some("Percentage progress must be between 0 and 100."@)
    } else {
        None
    }
}

/// Accepts a position unless it is negative (or not a number), its total
/// override is, or it is a percentage above one hundred.
pub fn validate_progress(unit: BookProgressUnit, check: ProgressValueCheck) -> (r: Result<
    (),
    MediaError,
>)
    ensures
        r is Err <==> progress_problem(unit, check) is Some,
        r matches Err(e) ==> e.kind == MediaErrorKind::Validation && Some(e.message@)
            == progress_problem(unit, check),
{
    if !check.value_is_valid {
        return Err(MediaError::validation("Book progress cannot be negative."));
    }
    if !check.total_is_valid {
        return Err(MediaError::validation("Book progress total cannot be negative."));
    }
    let is_percent = match unit {
        BookProgressUnit::Percent => true,
        _ => false,
    };
    if is_percent && check.value_above_hundred {
        return Err(MediaError::validation("Percentage progress must be between 0 and 100."));
    }
    Ok(())
}

/// Where the total that a position is measured against comes from.
#[derive(Clone, Copy, Debug, PartialEq, Eq)]
pub enum ProgressTotal {
    /// The reader's own total override.
    Override,
    /// One hundred, for percentages.
    Hundred,
    /// A positive page count or audio duration of the edition.
    Count(i64),
    /// No measurable total.
    Unknown,
}

pub open spec fn positive_count(value: Option<i64>) -> ProgressTotal {
    match value {
        Some(n) => if n > 0 {
            ProgressTotal::Count(n)
        } else {
            ProgressTotal::Unknown
        },
        None => ProgressTotal::Unknown,
    }
}

/// The total for a unit: a positive override wins; otherwise percentages
/// count to one hundred, pages to the page count, minutes to the audio
/// duration, and chapters have none.
pub open spec fn progress_total(
    unit: BookProgressUnit,
    override_is_positive: bool,
    page_count: Option<i64>,
    audio_duration_minutes: Option<i64>,
) -> ProgressTotal {
    if override_is_positive {
        ProgressTotal::Override
    } else {
        match unit {
            BookProgressUnit::Percent => ProgressTotal::Hundred,
            BookProgressUnit::Page => positive_count(page_count),
            BookProgressUnit::Minute => positive_count(audio_duration_minutes),
            BookProgressUnit::Chapter => ProgressTotal::Unknown,
        }
    }
}

fn count_if_positive(value: Option<i64>) -> (r: ProgressTotal)
    ensures
        r == positive_count(value),
{
    match value {
        Some(n) => if n > 0 {
            ProgressTotal::Count(n)
        } else {
            ProgressTotal::Unknown
        },
        None => ProgressTotal::Unknown,
    }
}

/// The total a position of `unit` is measured against;
/// `override_is_positive` says whether the reader gave an override above zero.
pub fn effective_progress_total(
    unit: BookProgressUnit,
    override_is_positive: bool,
    page_count: Option<i64>,
    audio_duration_minutes: Option<i64>,
) -> (r: ProgressTotal)
    ensures
        r == progress_total(unit, override_is_positive, page_count, audio_duration_minutes),
{
    if override_is_positive {
        return ProgressTotal::Override;
    }
    match unit {
        BookProgressUnit::Percent => ProgressTotal::Hundred,
        BookProgressUnit::Page => count_if_positive(page_count),
        BookProgressUnit::Minute => count_if_positive(audio_duration_minutes),
        BookProgressUnit::Chapter => ProgressTotal::Unknown,
    }
}

/// How a position compares with zero and with its effective total.
#[derive(Clone, Copy, Debug, PartialEq, Eq)]
pub struct ProgressReading {
    /// The position is above zero.
    pub started: bool,
    /// A total above zero is known and the position has reached it.
    pub reached_total: bool,
}

/// The status a book moves to when its position changes.
pub open spec fn book_status(
    current: MediaLibraryStatus,
    unit: BookProgressUnit,
    reading: ProgressReading,
) -> MediaLibraryStatus {
    if current.is_protected() {
        current
    } else if unit != BookProgressUnit::Chapter && reading.reached_total {
        MediaLibraryStatus::Completed
    } else if reading.started {
        MediaLibraryStatus::Watching
    } else {
        MediaLibraryStatus::Planned
    }
}

/// On-hold and dropped books keep their status; otherwise a book whose
/// position reached a known total (chapters have none) is completed, one
/// with any progress is being read, and one without is planned.
pub fn automatic_book_status(
    current: MediaLibraryStatus,
    unit: BookProgressUnit,
    reading: ProgressReading,
) -> (r: MediaLibraryStatus)
    ensures
        r == book_status(current, unit, reading),
{
    if current.protects_from_automatic_transition() {
        return current;
    }
    let is_chapter = match unit {
        BookProgressUnit::Chapter => true,
        _ => false,
    };
    if !is_chapter && reading.reached_total {
        MediaLibraryStatus::Completed
    } else if reading.started {
        MediaLibraryStatus::Watching
    } else {
        MediaLibraryStatus::Planned
    }
}

/// Progress counted in chapters never completes a book by itself.
pub proof fn chapter_progress_never_completes(current: MediaLibraryStatus, reading: ProgressReading)
    ensures
        book_status(current, BookProgressUnit::Chapter, reading) != MediaLibraryStatus::Completed,
{
}

/// A position change never moves an on-hold or dropped book.
pub proof fn protected_status_survives_progress(
    current: MediaLibraryStatus,
    unit: BookProgressUnit,
    reading: ProgressReading,
)
    requires
        current.is_protected(),
    ensures
        book_status(current, unit, reading) == current,
{
}

/// Outside the protected statuses, the new status depends on the position
/// alone, not on the status the book had.
pub proof fn unprotected_status_follows_position(
    first: MediaLibraryStatus,
    second: MediaLibraryStatus,
    unit: BookProgressUnit,
    reading: ProgressReading,
)
    requires
        !first.is_protected(),
        !second.is_protected(),
    ensures
        book_status(first, unit, reading) == book_status(second, unit, reading),
{
}

} // verus!
