use overlay_forge::media::{
    automatic_series_status, default_media_sort, default_page_limit, validate_http_url,
    MediaContentType, MediaError, MediaErrorKind, MediaLibraryStatus, ProgressFacts,
};

#[test]
fn parses_library_statuses() {
    assert_eq!(
        MediaLibraryStatus::from_str("ON_HOLD").expect("status should parse"),
        MediaLibraryStatus::OnHold
    );
    assert!(MediaLibraryStatus::from_str("NOT_INTERESTED").is_err());
}

#[test]
fn series_progress_transitions_are_centralized() {
    assert_eq!(
        automatic_series_status(MediaLibraryStatus::Planned, ProgressFacts { watched: 1, total: 10 }),
        MediaLibraryStatus::Watching
    );
    assert_eq!(
        automatic_series_status(MediaLibraryStatus::Watching, ProgressFacts { watched: 10, total: 10 }),
        MediaLibraryStatus::Completed
    );
    assert_eq!(
        automatic_series_status(MediaLibraryStatus::Completed, ProgressFacts { watched: 9, total: 10 }),
        MediaLibraryStatus::Watching
    );
}

#[test]
fn automatic_progress_does_not_override_hold_or_dropped() {
    for status in [MediaLibraryStatus::OnHold, MediaLibraryStatus::Dropped] {
        assert_eq!(
            automatic_series_status(status, ProgressFacts { watched: 10, total: 10 }),
            status
        );
    }
}

#[test]
fn external_urls_accept_only_http_and_https() {
    assert!(validate_http_url("https://example.com/watch").is_ok());
    assert!(validate_http_url("http://example.com/watch").is_ok());
    assert!(validate_http_url("file:///tmp/media").is_err());
    assert!(validate_http_url("javascript:alert(1)").is_err());
}

#[test]
fn url_errors_are_reported_in_order() {
    assert_eq!(validate_http_url("   ").unwrap_err().message, "A URL is required.");
    assert_eq!(
        validate_http_url("HTTPS://a b").unwrap_err().message,
        "The URL cannot contain whitespace."
    );
    assert_eq!(validate_http_url("  HTTP://x.org  ").unwrap(), "HTTP://x.org");
    assert_eq!(validate_http_url("ftp://x").unwrap_err().kind, MediaErrorKind::Validation);
}

#[test]
fn statuses_and_types_round_trip_through_their_labels() {
    for status in [
        MediaLibraryStatus::Planned,
        MediaLibraryStatus::Watching,
        MediaLibraryStatus::Completed,
        MediaLibraryStatus::OnHold,
        MediaLibraryStatus::Dropped,
    ] {
        assert_eq!(MediaLibraryStatus::from_str(status.as_str()).unwrap(), status);
    }
    assert_eq!(MediaLibraryStatus::from_str(" watching ").unwrap(), MediaLibraryStatus::Watching);
    assert_eq!(MediaContentType::from_str("series").unwrap(), MediaContentType::Series);
    assert_eq!(
        MediaContentType::from_str("book").unwrap_err().message,
        "Media type must be MOVIE or SERIES."
    );
}

#[test]
fn protected_statuses_and_empty_progress() {
    assert!(MediaLibraryStatus::OnHold.protects_from_automatic_transition());
    assert!(!MediaLibraryStatus::Watching.protects_from_automatic_transition());
    assert_eq!(
        automatic_series_status(MediaLibraryStatus::Planned, ProgressFacts { watched: 0, total: 0 }),
        MediaLibraryStatus::Planned
    );
}

#[test]
fn errors_and_defaults() {
    let error = MediaError::not_found("gone");
    assert_eq!(error.kind, MediaErrorKind::NotFound);
    assert_eq!(error.to_display_string(), "NotFound: gone");
    assert_eq!(MediaError::database("db").kind, MediaErrorKind::Database);
    assert_eq!(default_media_sort(), "RECENTLY_ADDED");
    assert_eq!(default_page_limit(), 100);
}
