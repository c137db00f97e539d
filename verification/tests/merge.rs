use overlay_forge::books::{BookCatalogResult, BookFormat, BookSourceIdentity};
use overlay_forge::merge::merge_catalog_results;

fn candidate(source: &str, id: &str, isbn: &str, title: &str) -> BookCatalogResult {
    BookCatalogResult {
        source_key: source.to_string(),
        external_id: id.to_string(),
        title: title.to_string(),
        subtitle: String::new(),
        authors: vec!["Author".to_string()],
        published_date: "2020".to_string(),
        publisher: String::new(),
        isbn_10: String::new(),
        isbn_13: isbn.to_string(),
        page_count: None,
        language: String::new(),
        format: BookFormat::Unknown,
        cover_url: String::new(),
        description: String::new(),
        work_key: String::new(),
        edition_key: String::new(),
        info_url: String::new(),
        preview_url: String::new(),
        already_in_library: false,
        existing_entry_id: None,
        match_basis: String::new(),
        provider_badges: vec![source.to_string()],
        source_identities: Vec::new(),
    }
}

#[test]
fn exact_isbn_results_merge_but_title_only_candidates_do_not() {
    let merged = merge_catalog_results(vec![
        candidate("open_library", "ol", "9780306406157", "Same"),
        candidate("google_books", "google", "9780306406157", "Same"),
        candidate("open_library", "title-only", "", "Same"),
    ]);
    assert_eq!(merged.len(), 2);
    assert_eq!(merged[0].source_key, "google_books");
}

#[test]
fn provider_identity_work_key_and_isbn10_are_high_confidence_matches() {
    let same_google = merge_catalog_results(vec![
        candidate("google_books", "volume-1", "", "First title"),
        candidate("google_books", "volume-1", "", "Updated title"),
    ]);
    assert_eq!(same_google.len(), 1);

    let mut first_work = candidate("open_library", "edition-1", "", "Work");
    first_work.work_key = "OL1W".to_string();
    let mut second_work = candidate("open_library", "edition-2", "", "Work");
    second_work.work_key = "OL1W".to_string();
    assert_eq!(merge_catalog_results(vec![first_work, second_work]).len(), 1);

    let mut first_isbn10 = candidate("google_books", "g", "", "ISBN-10");
    first_isbn10.isbn_10 = "0306406152".to_string();
    let mut second_isbn10 = candidate("open_library", "ol", "", "ISBN-10");
    second_isbn10.isbn_10 = "0306406152".to_string();
    assert_eq!(merge_catalog_results(vec![first_isbn10, second_isbn10]).len(), 1);
}

#[test]
fn merging_fills_gaps_and_keeps_badges_unique() {
    let mut first = candidate("open_library", "ol", "9780306406157", "Same");
    first.description = String::new();
    let mut second = candidate("google_books", "g", "9780306406157", "Same");
    second.description = "From Google".to_string();
    second.source_identities = vec![BookSourceIdentity {
        source_key: "google_books".to_string(),
        entity_type: "EDITION".to_string(),
        external_id: "g".to_string(),
        source_url: String::new(),
    }];
    let merged = merge_catalog_results(vec![first, second]);
    assert_eq!(merged.len(), 1);
    assert_eq!(merged[0].description, "From Google");
    assert_eq!(merged[0].provider_badges.len(), 2);
    assert!(merge_catalog_results(Vec::new()).is_empty());
}

#[test]
fn merging_keeps_one_result_per_key_in_first_seen_order() {
    let merged = merge_catalog_results(vec![
        candidate("open_library", "a", "9780306406157", "A"),
        candidate("open_library", "b", "", "B"),
        candidate("google_books", "c", "9780306406157", "A"),
        candidate("open_library", "b", "", "B again"),
        candidate("open_library", "d", "9781861972712", "D"),
    ]);
    let ids: Vec<&str> = merged.iter().map(|r| r.external_id.as_str()).collect();
    assert_eq!(ids, vec!["c", "b", "d"]);
    let sources: Vec<&str> = merged.iter().map(|r| r.source_key.as_str()).collect();
    assert_eq!(sources, vec!["google_books", "open_library", "open_library"]);
}

#[test]
fn merged_results_are_filed_under_their_first_seen_keys() {
    let mut identity_only = candidate("open_library", "w1", "", "W");
    identity_only.source_key = "work".to_string();
    let mut with_work_key = candidate("open_library", "x", "", "W");
    with_work_key.work_key = "w1".to_string();
    let merged = merge_catalog_results(vec![
        identity_only,
        candidate("open_library", "a", "9780306406157", "A"),
        with_work_key,
        candidate("google_books", "c", "9780306406157", "A"),
    ]);
    let keys: Vec<String> = merged.iter().map(|r| r.dedupe_key()).collect();
    assert_eq!(keys, vec!["work:w1".to_string(), "isbn13:9780306406157".to_string()]);
    assert_eq!(merged[0].work_key, "w1");
    assert_eq!(merged[1].source_key, "google_books");
}
