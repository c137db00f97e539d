use overlay_forge::books::{
    book_data_source_url, external_open_error, normalize_isbn, normalize_optional_isbn,
    plain_text_description, validate_link_type, validate_optional_url, BookFormat,
    BookProviderFailure, BookSearchInput, BookSearchMode,
};
use overlay_forge::media::MediaErrorKind;

#[test]
fn validates_and_normalizes_isbns() {
    assert_eq!(normalize_isbn("978-0-306-40615-7").as_deref(), Some("9780306406157"));
    assert_eq!(normalize_isbn("0-306-40615-2").as_deref(), Some("0306406152"));
    assert_eq!(normalize_isbn("978-0-306-40615-8"), None);
}

#[test]
fn typed_search_rejects_invalid_input() {
    let invalid_isbn = BookSearchInput {
        query: "1234".to_string(),
        mode: BookSearchMode::Isbn,
        limit: 20,
        language: String::new(),
    };
    assert!(invalid_isbn.validated_query().is_err());
    assert_eq!(BookSearchInput { limit: 400, ..invalid_isbn }.bounded_limit(), 40);
}

#[test]
fn strips_provider_html_from_descriptions() {
    assert_eq!(plain_text_description("A <b>great</b> book &amp; story"), "A great book & story");
}

#[test]
fn isbn_normalisation_is_idempotent_and_accepts_x_check_digits() {
    let once = normalize_isbn(" 0-8044-2957-X ").unwrap();
    assert_eq!(once, "080442957X");
    assert_eq!(normalize_isbn(&once).as_deref(), Some(once.as_str()));
    assert_eq!(normalize_isbn(""), None);
}

#[test]
fn search_queries_and_limits() {
    let search = BookSearchInput {
        query: "  dune ".to_string(),
        mode: BookSearchMode::Title,
        limit: 0,
        language: String::new(),
    };
    assert_eq!(search.validated_query().unwrap(), "dune");
    assert_eq!(search.bounded_limit(), 1);
    let short = BookSearchInput { query: " x ".to_string(), ..search };
    let error = short.validated_query().unwrap_err();
    assert_eq!(error.kind, MediaErrorKind::Validation);
    assert_eq!(error.message, "Book searches require at least two characters.");
    let isbn = BookSearchInput {
        query: "978-0-306-40615-7".to_string(),
        mode: BookSearchMode::Isbn,
        limit: 25,
        language: String::new(),
    };
    assert_eq!(isbn.validated_query().unwrap(), "9780306406157");
    assert_eq!(isbn.bounded_limit(), 25);
}

#[test]
fn book_formats_round_trip_through_their_labels() {
    for format in [BookFormat::Unknown, BookFormat::Ebook, BookFormat::Audiobook] {
        assert_eq!(BookFormat::from_str(format.as_str()).unwrap(), format);
    }
    assert_eq!(BookFormat::from_str("").unwrap(), BookFormat::Unknown);
}

#[test]
fn provider_warnings_name_the_provider() {
    let failure = BookProviderFailure {
        source_key: "open_library".to_string(),
        message: "timed out".to_string(),
    };
    assert_eq!(failure.warning_message(), "Open Library: timed out");
    let other = BookProviderFailure { source_key: "x".to_string(), message: "m".to_string() };
    assert_eq!(other.warning_message(), "Book provider: m");
}

#[test]
fn data_sources_links_and_optional_fields() {
    assert_eq!(book_data_source_url(" hardcover ").unwrap(), "https://hardcover.app/");
    assert_eq!(book_data_source_url("amazon").unwrap_err().message, "Unknown book data source.");
    assert_eq!(external_open_error("denied".to_string()), "ExternalOpen: denied");
    assert_eq!(normalize_optional_isbn("  ", 13).unwrap(), "");
    assert_eq!(normalize_optional_isbn("0-306-40615-2", 13).unwrap_err().message, "Expected an ISBN-13.");
    assert_eq!(normalize_optional_isbn("123", 10).unwrap_err().message, "ISBN-10 is invalid.");
    assert_eq!(validate_optional_url(" ").unwrap(), "");
    assert!(validate_optional_url("ftp://x").is_err());
    assert!(validate_link_type(" preview ").is_ok());
    assert!(validate_link_type("stream").is_err());
}
