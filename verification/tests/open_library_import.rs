use overlay_forge::book_providers::OpenLibrarySearchDoc;
use overlay_forge::books::BookFormat;
use overlay_forge::open_library_import::{
    apply_edition_record, apply_work_record, import_from_doc, OpenLibraryEditionRecord,
    OpenLibraryWorkRecord, RECORD_WITHOUT_TITLE,
};

fn doc(key: &str, title: &str, edition_key: &[&str]) -> OpenLibrarySearchDoc {
    OpenLibrarySearchDoc {
        key: key.to_string(),
        title: title.to_string(),
        subtitle: None,
        author_name: Vec::new(),
        first_publish_year: None,
        isbn: Vec::new(),
        edition_key: edition_key.iter().map(|s| s.to_string()).collect(),
        cover_i: None,
        publisher: Vec::new(),
        language: Vec::new(),
        number_of_pages_median: None,
        subject: Vec::new(),
        ebook_access: None,
        public_scan_b: false,
    }
}

const EDITION_JSON: &str = r#"{
  "title":"Example edition","publishers":["Example Press"],
  "publish_date":"2024-05-01","isbn_13":["9780306406157"],
  "number_of_pages":321,"covers":[55],"languages":[{"key":"/languages/eng"}]
}"#;

fn edition_record() -> OpenLibraryEditionRecord {
    OpenLibraryEditionRecord {
        title: "Example edition".to_string(),
        subtitle: None,
        publishers: vec!["Example Press".to_string()],
        publish_date: Some("2024-05-01".to_string()),
        isbn_10: Vec::new(),
        isbn_13: vec!["9780306406157".to_string()],
        number_of_pages: Some(321),
        covers: vec![55],
        language_keys: vec!["/languages/eng".to_string()],
    }
}

fn work_record() -> OpenLibraryWorkRecord {
    OpenLibraryWorkRecord {
        description: Some("A <b>work</b> description.".to_string()),
        subjects: vec!["History".to_string()],
        first_publish_date: Some("2020-01-01".to_string()),
        covers: vec![66],
    }
}

#[test]
fn maps_official_work_and_edition_json_fixtures_without_network() {
    let search = doc("/works/OL1W", "Example", &["OL2M"]);
    let search_json = r#"{"key":"/works/OL1W","title":"Example","edition_key":["OL2M"]}"#.to_string();
    let mut import = import_from_doc(&search, &search_json).expect("search import");

    apply_edition_record(&mut import, "OL2M", &edition_record(), &EDITION_JSON.to_string());
    apply_work_record(
        &mut import,
        "OL1W",
        &work_record(),
        &r#"{"description":{"value":"A <b>work</b> description."},"subjects":["History"],"first_publish_date":"2020-01-01","covers":[66]}"#.to_string(),
    );

    assert_eq!(import.description, "A work description.");
    assert_eq!(import.subjects, vec!["History"]);
    assert_eq!(import.editions[0].page_count, Some(321));
    assert_eq!(import.editions[0].language, "eng");
    assert!(import
        .sources
        .iter()
        .any(|source| source.entity_type == "EDITION" && source.metadata_json.contains("Example Press")));
}

#[test]
fn document_imports_carry_identities_links_and_the_edition() {
    let mut fixture = doc("/works/OL1W", "Example", &["OL2M"]);
    fixture.ebook_access = Some("borrowable".to_string());
    fixture.first_publish_year = Some(2021);
    let import = import_from_doc(&fixture, &"{}".to_string()).unwrap();
    assert_eq!(import.first_publish_year, Some(2021));
    let sources: Vec<(Option<usize>, &str, &str)> = import
        .sources
        .iter()
        .map(|s| (s.edition_index, s.entity_type.as_str(), s.external_id.as_str()))
        .collect();
    assert_eq!(sources, vec![(None, "WORK", "OL1W"), (Some(0), "EDITION", "OL2M")]);
    assert_eq!(import.links.len(), 1);
    assert_eq!(import.links[0].link_type, "BORROW");
    assert_eq!(import.links[0].url, "https://openlibrary.org/works/OL1W");
    assert!(import.editions[0].is_ebook);
    assert_eq!(import.editions[0].access_viewability, "borrowable");

    fixture.public_scan_b = true;
    fixture.ebook_access = Some("no_ebook".to_string());
    let scanned = import_from_doc(&fixture, &"{}".to_string()).unwrap();
    assert_eq!(scanned.links[0].link_type, "READ");
    assert!(!scanned.editions[0].is_ebook);

    let error = import_from_doc(&doc("/works/OL1W", "  ", &[]), &"{}".to_string()).err().unwrap();
    assert_eq!(error.message, RECORD_WITHOUT_TITLE);
}

#[test]
fn records_fill_only_what_is_blank_and_update_their_source_rows() {
    let mut import = import_from_doc(&doc("/works/OL1W", "Example", &["OL2M"]), &"{}".to_string()).unwrap();
    import.description = "Kept".to_string();
    import.subjects = vec!["history".to_string()];
    import.first_publish_year = Some(1999);
    let mut edition = edition_record();
    edition.title = "   ".to_string();
    edition.number_of_pages = Some(0);
    edition.covers = Vec::new();
    apply_edition_record(&mut import, "OL2M", &edition, &"edition".to_string());
    assert_eq!(import.editions[0].title, "Example");
    assert_eq!(import.editions[0].page_count, None);
    assert_eq!(import.editions[0].publisher, "Example Press");
    assert_eq!(import.editions[0].isbn_13, "9780306406157");
    assert_eq!(import.editions[0].format, BookFormat::Unknown);
    assert_eq!(import.canonical_cover_url, "");
    let edition_rows = import.sources.iter().filter(|s| s.entity_type == "EDITION").count();
    assert_eq!(edition_rows, 1);

    let mut work = work_record();
    work.subjects = vec!["HISTORY".to_string(), "Dunes".to_string(), "dunes".to_string()];
    apply_work_record(&mut import, "OL9W", &work, &"work".to_string());
    assert_eq!(import.description, "Kept");
    assert_eq!(import.subjects, vec!["history", "Dunes"]);
    assert_eq!(import.first_publish_year, Some(1999));
    assert_eq!(import.canonical_cover_url, "https://covers.openlibrary.org/b/id/66-L.jpg");
    let work_rows: Vec<(&str, &str)> = import
        .sources
        .iter()
        .filter(|s| s.entity_type == "WORK")
        .map(|s| (s.external_id.as_str(), s.metadata_json.as_str()))
        .collect();
    assert_eq!(work_rows, vec![("OL1W", "{}"), ("OL9W", "work")]);
}
