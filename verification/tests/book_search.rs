use overlay_forge::book_search::{
    combine_provider_searches, BookProviderResponse, GOOGLE_NOT_CONFIGURED, MATCHED_IN_LIBRARY,
};
use overlay_forge::book_service::BookCatalogService;
use overlay_forge::books::{
    BookCatalogResult, BookFormat, BookProviderFailure, BookSearchInput, BookSearchMode,
    BookSourceIdentity,
};
use overlay_forge::database::AppDatabase;
use overlay_forge::media::{MediaError, MediaErrorKind};
use overlay_forge::media_schema::migrate_schema;

fn candidate(source: &str, id: &str, isbn: &str, title: &str) -> BookCatalogResult {
    BookCatalogResult {
        source_key: source.to_string(),
        external_id: id.to_string(),
        title: title.to_string(),
        subtitle: String::new(),
        authors: vec!["Author".to_string()],
        published_date: "2020".to_string(),
        publisher: String::new(),
        isbn_10: String::new(),
        isbn_13: isbn.to_string(),
        page_count: None,
        language: String::new(),
        format: BookFormat::Unknown,
        cover_url: String::new(),
        description: String::new(),
        work_key: String::new(),
        edition_key: String::new(),
        info_url: String::new(),
        preview_url: String::new(),
        already_in_library: false,
        existing_entry_id: None,
        match_basis: "PROVIDER_ID".to_string(),
        provider_badges: vec![source.to_string()],
        source_identities: Vec::new(),
    }
}

fn error(kind: MediaErrorKind, message: &str) -> MediaError {
    MediaError { kind, message: message.to_string() }
}

fn failures(response: &BookProviderResponse<Vec<BookCatalogResult>>) -> Vec<(String, String)> {
    response.failures.iter().map(|f| (f.source_key.clone(), f.message.clone())).collect()
}

#[test]
fn searches_fall_back_to_open_library_and_merge_shared_isbns() {
    let response = combine_provider_searches(
        None,
        Ok(vec![candidate("open_library", "OL1", "9780306406157", "Dune")]),
    )
    .unwrap();
    assert_eq!(response.value.len(), 1);
    assert_eq!(failures(&response), vec![("google_books".to_string(), GOOGLE_NOT_CONFIGURED.to_string())]);

    let response = combine_provider_searches(
        Some(Ok(vec![candidate("google_books", "g1", "9780306406157", "Dune")])),
        Ok(vec![
            candidate("open_library", "OL1", "9780306406157", "Dune"),
            candidate("open_library", "OL2", "", "Other"),
        ]),
    )
    .unwrap();
    assert_eq!(response.value.len(), 2);
    assert_eq!(response.value[0].external_id, "g1");
    assert!(response.failures.is_empty());
}

#[test]
fn open_library_failures_are_warnings_only_when_something_was_found() {
    let response = combine_provider_searches(
        Some(Ok(vec![candidate("google_books", "g1", "", "Dune")])),
        Err(error(MediaErrorKind::Network, "timed out")),
    )
    .unwrap();
    assert_eq!(response.value.len(), 1);
    assert_eq!(failures(&response), vec![("open_library".to_string(), "timed out".to_string())]);

    let failed = combine_provider_searches(
        Some(Err(error(MediaErrorKind::RateLimited, "quota"))),
        Err(error(MediaErrorKind::Network, "timed out")),
    )
    .err()
    .unwrap();
    assert_eq!((failed.kind, failed.message.as_str()), (MediaErrorKind::Network, "timed out"));
}

#[test]
fn empty_searches_with_failures_report_the_providers_unavailable() {
    let failed = combine_provider_searches(None, Ok(Vec::new())).err().unwrap();
    assert_eq!(failed.kind, MediaErrorKind::ProviderUnavailable);
    assert_eq!(failed.message, "Google Books: Not configured; Open Library fallback was used.");
    let failed = combine_provider_searches(Some(Err(error(MediaErrorKind::RateLimited, "quota"))), Ok(Vec::new()))
        .err()
        .unwrap();
    assert_eq!(failed.message, "Google Books: quota");
    let empty = combine_provider_searches(Some(Ok(Vec::new())), Ok(Vec::new())).unwrap();
    assert!(empty.value.is_empty() && empty.failures.is_empty());
}

fn library() -> AppDatabase {
    let connection = rusqlite::Connection::open_in_memory().unwrap();
    migrate_schema(&connection).unwrap();
    connection
        .execute_batch(
            "INSERT INTO obj_media_title (id, source_key, external_media_type, content_type, title) VALUES (3, 'book', 'book', 'BOOK', 'Dune');
             INSERT INTO obj_media_library_entry (id, media_title_id) VALUES (12, 3);
             INSERT INTO obj_media_book_edition (media_title_id, title, isbn_13) VALUES (3, 'Dune', '9780306406157');
             INSERT INTO obj_media_book_source_record (media_title_id, source_key, entity_type, external_id) VALUES (3, 'open_library', 'EDITION', 'OL1M');",
        )
        .unwrap();
    AppDatabase::new(connection)
}

#[test]
fn results_are_marked_with_the_entries_they_match() {
    let db = library();
    let service = BookCatalogService::new(&db);
    let mut by_identity = candidate("google_books", "g9", "", "Dune");
    by_identity.source_identities = vec![
        BookSourceIdentity {
            source_key: "google_books".to_string(),
            entity_type: "EDITION".to_string(),
            external_id: "g9".to_string(),
            source_url: String::new(),
        },
        BookSourceIdentity {
            source_key: "open_library".to_string(),
            entity_type: "EDITION".to_string(),
            external_id: "OL1M".to_string(),
            source_url: String::new(),
        },
    ];
    let by_isbn = candidate("open_library", "OL7", "978-0-306-40615-7", "Dune");
    let unknown = candidate("open_library", "OL8", "", "Unknown");
    let response = service
        .search_response(BookProviderResponse {
            value: vec![by_identity, by_isbn, unknown],
            failures: vec![BookProviderFailure {
                source_key: "hardcover".to_string(),
                message: "offline".to_string(),
            }],
        })
        .unwrap();
    assert_eq!(response.warnings, vec!["Hardcover: offline".to_string()]);
    let r = &response.results;
    assert_eq!((r[0].already_in_library, r[0].existing_entry_id), (true, Some(12)));
    assert_eq!(r[0].match_basis, MATCHED_IN_LIBRARY);
    assert_eq!((r[1].already_in_library, r[1].existing_entry_id), (true, Some(12)));
    assert_eq!(r[1].match_basis, "PROVIDER_ID");
    assert_eq!((r[2].already_in_library, r[2].existing_entry_id), (false, None));
    assert_eq!(r[2].title, "Unknown");
}

#[test]
fn blank_search_languages_come_from_the_settings() {
    let db = library();
    let service = BookCatalogService::new(&db);
    let input = BookSearchInput {
        query: "dune".to_string(),
        mode: BookSearchMode::Title,
        limit: 5,
        language: "  ".to_string(),
    };
    let resolved = service.resolved_search_input(&input).unwrap();
    assert_eq!(resolved.language, "en-CA");
    assert_eq!((resolved.query.as_str(), resolved.limit), ("dune", 5));
    let mut french = input.clone();
    french.language = "fr".to_string();
    assert_eq!(service.resolved_search_input(&french).unwrap().language, "fr");
}
