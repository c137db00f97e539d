use overlay_forge::book_providers::{
    normalize_volume, GoogleIndustryIdentifier, GoogleVolume, GoogleVolumeInfo, OpenLibrarySearchDoc,
};
use overlay_forge::book_requests::{
    google_edition, google_links, google_search_parameters, google_volume_results,
    hardcover_edition, hardcover_title, open_library_doc_results, open_library_search_parameters,
    release_year, GOOGLE_VOLUME_WITHOUT_TITLE, OPEN_LIBRARY_SEARCH_FIELDS,
};
use overlay_forge::books::{BookFormat, BookSearchInput, BookSearchMode};
use overlay_forge::media::MediaErrorKind;

fn input(query: &str, mode: BookSearchMode, limit: usize, language: &str) -> BookSearchInput {
    BookSearchInput { query: query.to_string(), mode, limit, language: language.to_string() }
}

fn pairs(v: &[(&str, &str)]) -> Vec<(String, String)> {
    v.iter().map(|(a, b)| (a.to_string(), b.to_string())).collect()
}

#[test]
fn google_searches_prefix_the_query_and_restrict_two_letter_languages() {
    assert_eq!(
        google_search_parameters(&input("  dune ", BookSearchMode::Title, 0, "en-US")).unwrap(),
        pairs(&[
            ("q", "intitle:dune"),
            ("maxResults", "1"),
            ("printType", "books"),
            ("projection", "full"),
            ("langRestrict", "en"),
        ])
    );
    let author = google_search_parameters(&input("le guin", BookSearchMode::Author, 12, "FR_ca")).unwrap();
    assert_eq!(author[0].1, "inauthor:le guin");
    assert_eq!(author[1].1, "12");
    assert_eq!(author[4], ("langRestrict".to_string(), "fr".to_string()));
    let no_language = google_search_parameters(&input("dune", BookSearchMode::General, 99, "eng")).unwrap();
    assert_eq!(no_language.len(), 4);
    assert_eq!((no_language[0].1.as_str(), no_language[1].1.as_str()), ("dune", "40"));
    assert_eq!(google_search_parameters(&input("dune", BookSearchMode::General, 5, "")).unwrap().len(), 4);
    let isbn = google_search_parameters(&input("978-0-306-40615-7", BookSearchMode::Isbn, 5, "")).unwrap();
    assert_eq!(isbn[0].1, "isbn:9780306406157");
    let error = google_search_parameters(&input("d", BookSearchMode::General, 5, "")).unwrap_err();
    assert_eq!(error.kind, MediaErrorKind::Validation);
}

#[test]
fn open_library_searches_name_the_query_by_mode() {
    assert_eq!(
        open_library_search_parameters(&input("le guin", BookSearchMode::Author, 100, "en")).unwrap(),
        pairs(&[("limit", "40"), ("fields", OPEN_LIBRARY_SEARCH_FIELDS), ("author", "le guin")])
    );
    let general = open_library_search_parameters(&input(" dune ", BookSearchMode::General, 3, "")).unwrap();
    assert_eq!(general[2], ("q".to_string(), "dune".to_string()));
    assert!(open_library_search_parameters(&input("123", BookSearchMode::Isbn, 3, "")).is_err());
}

#[test]
fn years_are_read_from_the_first_four_characters() {
    for date in ["2024-05-01", "1999", "99", "abcd", "+123-1", "é999", "20é4", "-001x", ""] {
        let expected = date.get(0..4).and_then(|year| year.parse::<i64>().ok());
        assert_eq!(release_year(date), expected, "{date:?}");
    }
    assert_eq!(release_year("2024-05-01"), Some(2024));
}

fn volume(title: &str) -> GoogleVolume {
    GoogleVolume {
        id: "abc123".to_string(),
        volume_info: GoogleVolumeInfo {
            title: Some(title.to_string()),
            subtitle: Some("Sub".to_string()),
            authors: vec!["A. Author".to_string()],
            publisher: Some("Press".to_string()),
            published_date: Some("2020-01-01".to_string()),
            description: None,
            industry_identifiers: vec![GoogleIndustryIdentifier {
                identifier_type: "ISBN_13".to_string(),
                identifier: "9780306406157".to_string(),
            }],
            page_count: Some(320),
            categories: Vec::new(),
            ratings_count: None,
            language: Some("en".to_string()),
            image_links: None,
            preview_link: None,
            info_link: Some("https://books.google.com/books?id=abc123".to_string()),
        },
        sale_info: None,
        access_info: None,
    }
}

#[test]
fn google_imports_keep_titled_volumes_secure_links_and_edition_facts() {
    let results = google_volume_results(&vec![volume("Dune"), volume("   "), volume("Emma")]);
    assert_eq!(results.iter().map(|r| r.title.as_str()).collect::<Vec<_>>(), vec!["Dune", "Emma"]);

    let links = google_links(
        &"https://books.google.com/books?id=abc123".to_string(),
        &String::new(),
        &Some("http://shop.example/buy".to_string()),
        &Some("ftp://reader.example".to_string()),
    );
    let views: Vec<(&str, &str)> = links.iter().map(|l| (l.link_type.as_str(), l.url.as_str())).collect();
    assert_eq!(
        views,
        vec![("INFO", "https://books.google.com/books?id=abc123"), ("BUY", "http://shop.example/buy")]
    );
    assert!(links.iter().all(|l| l.source_key == "google_books" && l.edition_index.is_none()));

    let candidate = normalize_volume(&volume("Dune"));
    let edition = google_edition(&candidate, true, &"PARTIAL".to_string()).unwrap();
    assert_eq!(edition.title, "Dune");
    assert_eq!(edition.isbn_13, "9780306406157");
    assert_eq!(edition.page_count, Some(320));
    assert_eq!(edition.published_date, "2020-01-01");
    assert!(edition.is_ebook);
    assert_eq!(edition.access_viewability, "PARTIAL");
    assert_eq!(edition.audio_duration_minutes, None);
    let untitled = normalize_volume(&volume("  "));
    let error = google_edition(&untitled, false, &String::new()).unwrap_err();
    assert_eq!(error.kind, MediaErrorKind::ProviderUnavailable);
    assert_eq!(error.message, GOOGLE_VOLUME_WITHOUT_TITLE);
}

#[test]
fn open_library_searches_keep_documents_that_make_results() {
    let doc = |key: &str, title: &str| OpenLibrarySearchDoc {
        key: key.to_string(),
        title: title.to_string(),
        subtitle: None,
        author_name: Vec::new(),
        first_publish_year: None,
        isbn: Vec::new(),
        edition_key: vec!["OL2M".to_string()],
        cover_i: None,
        publisher: Vec::new(),
        language: Vec::new(),
        number_of_pages_median: None,
        subject: Vec::new(),
        ebook_access: None,
        public_scan_b: false,
    };
    let results = open_library_doc_results(&vec![doc("/works/OL1W", "Dune"), doc("/works/OL3W", " "), doc("/works/OL4W", "Emma")]);
    assert_eq!(results.iter().map(|r| r.work_key.as_str()).collect::<Vec<_>>(), vec!["OL1W", "OL4W"]);
}

#[test]
fn hardcover_editions_take_their_facts_from_the_record() {
    assert_eq!(hardcover_title(&Some("Book".to_string()), &Some("Edition".to_string())), "Book");
    assert_eq!(hardcover_title(&None, &Some("Edition".to_string())), "Edition");
    assert_eq!(hardcover_title(&None, &None), "");
    let edition = hardcover_edition(
        &"Dune".to_string(),
        &None,
        Some("Hardcover"),
        Some(0),
        Some("0-306-40615-2"),
        Some("0306406152"),
        &Some("Ace".to_string()),
        &Some("1965-08-01".to_string()),
        Some(0),
    );
    assert_eq!(edition.format, BookFormat::Hardcover);
    assert_eq!(edition.isbn_10, "0306406152");
    assert_eq!(edition.isbn_13, "");
    assert_eq!(edition.publisher, "Ace");
    assert_eq!(edition.published_date, "1965-08-01");
    assert_eq!(edition.page_count, None);
    assert_eq!(edition.audio_duration_minutes, None);
    let audio = hardcover_edition(&"Dune".to_string(), &Some("Unabridged".to_string()), None, Some(3601), None, None, &None, &None, Some(400));
    assert_eq!(audio.format, BookFormat::Audiobook);
    assert_eq!(audio.audio_duration_minutes, Some(61));
    assert_eq!(audio.subtitle, "Unabridged");
    assert_eq!(audio.page_count, Some(400));
}
