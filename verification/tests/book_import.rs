use overlay_forge::book_import::{BookImport, BookMetadataMerger, NormalizedBookSeries};
use overlay_forge::books::{BookFormat, NormalizedBookEdition, NormalizedBookLink, NormalizedBookSource};

fn edition(isbn_10: &str, isbn_13: &str) -> NormalizedBookEdition {
    NormalizedBookEdition {
        title: "Title".to_string(),
        subtitle: String::new(),
        format: BookFormat::Unknown,
        isbn_10: isbn_10.to_string(),
        isbn_13: isbn_13.to_string(),
        publisher: String::new(),
        published_date: String::new(),
        language: String::new(),
        page_count: None,
        audio_duration_minutes: None,
        cover_url: String::new(),
        is_ebook: false,
        access_viewability: String::new(),
    }
}

fn import(description: &str, _source: &str) -> BookImport {
    BookImport {
        title: "Title".to_string(),
        subtitle: String::new(),
        description: description.to_string(),
        authors: vec![],
        first_publish_year: None,
        subjects: vec![],
        canonical_cover_url: String::new(),
        community_rating_count: None,
        editions: vec![edition("", "")],
        sources: vec![],
        links: vec![],
        series: vec![],
    }
}

fn source(key: &str, entity: &str, id: &str) -> NormalizedBookSource {
    NormalizedBookSource {
        edition_index: None,
        source_key: key.to_string(),
        entity_type: entity.to_string(),
        external_id: id.to_string(),
        source_url: String::new(),
        metadata_json: "{}".to_string(),
    }
}

fn link(link_type: &str, url: &str) -> NormalizedBookLink {
    NormalizedBookLink {
        edition_index: None,
        source_key: "open_library".to_string(),
        link_type: link_type.to_string(),
        url: url.to_string(),
        region_code: String::new(),
    }
}

#[test]
fn empty_enrichment_never_overwrites_populated_metadata() {
    let mut base = import("Useful description", "google_books");
    BookMetadataMerger::merge(&mut base, import("", "open_library"));
    assert_eq!(base.description, "Useful description");
}

#[test]
fn enrichment_fills_gaps_and_adds_only_what_is_new() {
    let mut base = import("", "google_books");
    base.authors = vec!["Frank Herbert".to_string()];
    base.first_publish_year = Some(1965);
    base.editions = vec![edition("0306406152", "9780306406157")];
    base.sources = vec![source("google_books", "EDITION", "g1")];
    base.links = vec![link("INFO", "https://books.google.com/g1")];

    let mut enrichment = import("A desert planet.", "open_library");
    enrichment.subtitle = "Deluxe".to_string();
    enrichment.authors = vec!["frank herbert".to_string(), "  ".to_string(), "Brian Herbert".to_string()];
    enrichment.subjects = vec!["Science fiction".to_string()];
    enrichment.first_publish_year = Some(1966);
    enrichment.community_rating_count = Some(12);
    enrichment.canonical_cover_url = "https://covers.openlibrary.org/b/id/1-L.jpg".to_string();
    enrichment.editions = vec![
        edition("", "9780306406157"),
        edition("0306406152", ""),
        edition("", "9780140449136"),
        edition("", "9780140449136"),
        edition("", ""),
    ];
    enrichment.sources = vec![
        source("google_books", "EDITION", "g1"),
        source("open_library", "WORK", "OL1W"),
        source("open_library", "WORK", "OL1W"),
    ];
    enrichment.links = vec![link("INFO", "https://books.google.com/g1"), link("READ", "https://books.google.com/g1")];

    BookMetadataMerger::merge(&mut base, enrichment);
    assert_eq!(base.title, "Title");
    assert_eq!(base.subtitle, "Deluxe");
    assert_eq!(base.description, "A desert planet.");
    assert_eq!(base.first_publish_year, Some(1965));
    assert_eq!(base.community_rating_count, Some(12));
    assert_eq!(base.canonical_cover_url, "https://covers.openlibrary.org/b/id/1-L.jpg");
    assert_eq!(base.authors, vec!["Frank Herbert", "Brian Herbert"]);
    assert_eq!(base.subjects, vec!["Science fiction"]);
    let isbns: Vec<(&str, &str)> = base.editions.iter().map(|e| (e.isbn_10.as_str(), e.isbn_13.as_str())).collect();
    assert_eq!(isbns, vec![("0306406152", "9780306406157"), ("", "9780140449136"), ("", "")]);
    let sources: Vec<&str> = base.sources.iter().map(|s| s.external_id.as_str()).collect();
    assert_eq!(sources, vec!["g1", "OL1W"]);
    let links: Vec<&str> = base.links.iter().map(|l| l.link_type.as_str()).collect();
    assert_eq!(links, vec!["INFO", "READ"]);
}

use overlay_forge::book_search::{
    apply_enrichment, import_source, preferred_isbn, ImportSource, GOOGLE_KEY_REQUIRED,
    UNSUPPORTED_IMPORT_SOURCE,
};
use overlay_forge::books::BookProviderFailure;
use overlay_forge::media::{MediaError, MediaErrorKind};

#[test]
fn imports_come_from_configured_sources_only() {
    assert_eq!(import_source(" google_books ", true).unwrap(), ImportSource::GoogleBooks);
    let missing = import_source("google_books", false).unwrap_err();
    assert_eq!((missing.kind, missing.message.as_str()), (MediaErrorKind::MissingCredential, GOOGLE_KEY_REQUIRED));
    assert_eq!(import_source("open_library", false).unwrap(), ImportSource::OpenLibrary);
    let unknown = import_source("hardcover", true).unwrap_err();
    assert_eq!((unknown.kind, unknown.message.as_str()), (MediaErrorKind::Validation, UNSUPPORTED_IMPORT_SOURCE));
}

#[test]
fn enrichment_uses_the_first_isbn_13_then_isbn_10() {
    let mut base = import("", "google_books");
    assert_eq!(preferred_isbn(&base), None);
    base.editions = vec![edition("0306406152", ""), edition("", "9780140449136")];
    assert_eq!(preferred_isbn(&base).as_deref(), Some("9780140449136"));
    base.editions = vec![edition("", ""), edition("0306406152", "")];
    assert_eq!(preferred_isbn(&base).as_deref(), Some("0306406152"));
}

#[test]
fn enrichment_outcomes_merge_skip_or_record_a_failure() {
    let mut base = import("", "google_books");
    let mut failures: Vec<BookProviderFailure> = Vec::new();
    apply_enrichment(&mut base, &mut failures, "open_library", Ok(Some(import("Found", "open_library"))));
    assert_eq!(base.description, "Found");
    apply_enrichment(&mut base, &mut failures, "hardcover", Ok(None));
    assert!(failures.is_empty());
    apply_enrichment(
        &mut base,
        &mut failures,
        "hardcover",
        Err(MediaError { kind: MediaErrorKind::Network, message: "offline".to_string() }),
    );
    assert_eq!(failures.len(), 1);
    assert_eq!((failures[0].source_key.as_str(), failures[0].message.as_str()), ("hardcover", "offline"));
    assert_eq!(base.description, "Found");
}

fn series(name: &str, position: &str, source: &str) -> NormalizedBookSeries {
    NormalizedBookSeries {
        name: name.to_string(),
        position_text: position.to_string(),
        source_key: source.to_string(),
    }
}

#[test]
fn merging_keeps_the_base_series_ahead_of_the_enrichment_series() {
    let mut base = import("Base", "google_books");
    base.series = vec![series("Saga", "1", "google_books")];
    let mut enrichment = import("", "hardcover");
    enrichment.series = vec![series("Saga", "1", "hardcover"), series("Other", "", "hardcover")];
    BookMetadataMerger::merge(&mut base, enrichment);
    let kept: Vec<(&str, &str, &str)> = base
        .series
        .iter()
        .map(|s| (s.name.as_str(), s.position_text.as_str(), s.source_key.as_str()))
        .collect();
    assert_eq!(
        kept,
        vec![("Saga", "1", "google_books"), ("Saga", "1", "hardcover"), ("Other", "", "hardcover")]
    );
}
