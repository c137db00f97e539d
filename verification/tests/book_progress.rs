use overlay_forge::book_progress::{
    automatic_book_status, effective_progress_total, validate_progress, ProgressReading,
    ProgressTotal, ProgressValueCheck,
};
use overlay_forge::books::BookProgressUnit;
use overlay_forge::media::{MediaErrorKind, MediaLibraryStatus};

/// Compares a position with its effective total the way the library's
/// callers do before asking for the new status.
fn reading(value: f64, effective_total: Option<f64>) -> ProgressReading {
    ProgressReading {
        started: value > 0.0,
        reached_total: effective_total.is_some_and(|total| total > 0.0 && value >= total),
    }
}

fn status_after(
    current: MediaLibraryStatus,
    unit: BookProgressUnit,
    value: f64,
    effective_total: Option<f64>,
) -> MediaLibraryStatus {
    automatic_book_status(current, unit, reading(value, effective_total))
}

fn value_check(value: f64, total_override: Option<f64>) -> ProgressValueCheck {
    ProgressValueCheck {
        value_is_valid: value.is_finite() && value >= 0.0,
        total_is_valid: !total_override.is_some_and(|total| !total.is_finite() || total < 0.0),
        value_above_hundred: value > 100.0,
    }
}

#[test]
fn progress_transitions_respect_protected_statuses() {
    assert_eq!(
        status_after(
            MediaLibraryStatus::Planned,
            BookProgressUnit::Percent,
            1.0,
            Some(100.0),
        ),
        MediaLibraryStatus::Watching
    );
    assert_eq!(
        status_after(
            MediaLibraryStatus::Watching,
            BookProgressUnit::Page,
            300.0,
            Some(300.0),
        ),
        MediaLibraryStatus::Completed
    );
    assert_eq!(
        status_after(
            MediaLibraryStatus::OnHold,
            BookProgressUnit::Percent,
            100.0,
            Some(100.0),
        ),
        MediaLibraryStatus::OnHold
    );
}

#[test]
fn chapter_progress_never_auto_completes() {
    assert_eq!(
        status_after(
            MediaLibraryStatus::Watching,
            BookProgressUnit::Chapter,
            100.0,
            Some(100.0),
        ),
        MediaLibraryStatus::Watching
    );
}

#[test]
fn measurable_progress_requires_and_uses_the_correct_total() {
    assert_eq!(
        status_after(MediaLibraryStatus::Watching, BookProgressUnit::Page, 500.0, None),
        MediaLibraryStatus::Watching
    );
    assert_eq!(
        status_after(
            MediaLibraryStatus::Planned,
            BookProgressUnit::Percent,
            100.0,
            Some(100.0),
        ),
        MediaLibraryStatus::Completed
    );
    assert_eq!(
        status_after(
            MediaLibraryStatus::Watching,
            BookProgressUnit::Minute,
            420.0,
            Some(420.0),
        ),
        MediaLibraryStatus::Completed
    );
    assert_eq!(
        status_after(
            MediaLibraryStatus::Completed,
            BookProgressUnit::Page,
            25.0,
            Some(100.0),
        ),
        MediaLibraryStatus::Watching
    );
}

#[test]
fn dropped_books_ignore_progress_and_zero_progress_is_planned() {
    assert_eq!(
        status_after(MediaLibraryStatus::Dropped, BookProgressUnit::Page, 300.0, Some(300.0)),
        MediaLibraryStatus::Dropped
    );
    assert_eq!(
        status_after(MediaLibraryStatus::Completed, BookProgressUnit::Page, 0.0, Some(300.0)),
        MediaLibraryStatus::Planned
    );
    assert_eq!(
        status_after(MediaLibraryStatus::Watching, BookProgressUnit::Chapter, 0.0, None),
        MediaLibraryStatus::Planned
    );
}

#[test]
fn progress_validation_reports_each_problem() {
    assert!(validate_progress(BookProgressUnit::Page, value_check(120.0, Some(300.0))).is_ok());
    assert!(validate_progress(BookProgressUnit::Percent, value_check(100.0, None)).is_ok());

    let negative = validate_progress(BookProgressUnit::Page, value_check(-1.0, None))
        .expect_err("negative progress is refused");
    assert_eq!(negative.kind, MediaErrorKind::Validation);
    assert_eq!(negative.message, "Book progress cannot be negative.");

    let not_a_number = validate_progress(BookProgressUnit::Page, value_check(f64::NAN, None))
        .expect_err("NaN progress is refused");
    assert_eq!(not_a_number.message, "Book progress cannot be negative.");

    let total = validate_progress(BookProgressUnit::Page, value_check(10.0, Some(-5.0)))
        .expect_err("a negative total is refused");
    assert_eq!(total.message, "Book progress total cannot be negative.");

    let percent = validate_progress(BookProgressUnit::Percent, value_check(100.5, None))
        .expect_err("percentages stop at one hundred");
    assert_eq!(percent.message, "Percentage progress must be between 0 and 100.");

    assert!(validate_progress(BookProgressUnit::Minute, value_check(100.5, None)).is_ok());
}

#[test]
fn effective_totals_follow_the_unit() {
    assert_eq!(
        effective_progress_total(BookProgressUnit::Page, true, Some(300), None),
        ProgressTotal::Override
    );
    assert_eq!(
        effective_progress_total(BookProgressUnit::Percent, false, None, None),
        ProgressTotal::Hundred
    );
    assert_eq!(
        effective_progress_total(BookProgressUnit::Page, false, Some(300), Some(600)),
        ProgressTotal::Count(300)
    );
    assert_eq!(
        effective_progress_total(BookProgressUnit::Minute, false, Some(300), Some(600)),
        ProgressTotal::Count(600)
    );
    assert_eq!(
        effective_progress_total(BookProgressUnit::Page, false, Some(0), Some(600)),
        ProgressTotal::Unknown
    );
    assert_eq!(
        effective_progress_total(BookProgressUnit::Chapter, false, Some(300), Some(600)),
        ProgressTotal::Unknown
    );
}
