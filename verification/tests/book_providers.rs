use overlay_forge::book_providers::{
    audio_minutes, decode_graphql_envelope, exact_isbn_of, hardcover_book_url,
    hardcover_format_of, key_tail_of, normalize_doc, normalize_volume, normalized_isbns,
    open_library_interval_millis, GoogleImageLinks, GoogleIndustryIdentifier, GoogleSaleInfo,
    GoogleVolume, GoogleVolumeInfo, GraphQlEnvelope, GraphQlError, OpenLibrarySearchDoc,
};
use overlay_forge::open_library_import::import_from_doc;
use overlay_forge::book_service::{book_matches_filter, book_order_terms_chars, BookListFacts};
use overlay_forge::books::{BookFormat, BookLibraryFilter, BookOwnershipStatus};
use overlay_forge::media::{MediaErrorKind, MediaLibraryStatus};

fn strings(v: &[&str]) -> Vec<String> {
    v.iter().map(|s| s.to_string()).collect()
}

fn doc(key: &str, title: &str, edition_key: &[&str]) -> OpenLibrarySearchDoc {
    OpenLibrarySearchDoc {
        key: key.to_string(),
        title: title.to_string(),
        subtitle: None,
        author_name: Vec::new(),
        first_publish_year: None,
        isbn: Vec::new(),
        edition_key: strings(edition_key),
        cover_i: None,
        publisher: Vec::new(),
        language: Vec::new(),
        number_of_pages_median: None,
        subject: Vec::new(),
        ebook_access: None,
        public_scan_b: false,
    }
}

#[test]
fn normalizes_open_library_fixture_without_network() {
    let mut fixture = doc("/works/OL1W", "Example", &["OL2M"]);
    fixture.author_name = strings(&["A. Author"]);
    fixture.first_publish_year = Some(2021);
    fixture.isbn = strings(&["9780306406157"]);
    fixture.cover_i = Some(42);
    fixture.publisher = strings(&["Press"]);
    fixture.language = strings(&["eng"]);
    fixture.number_of_pages_median = Some(250);
    fixture.subject = strings(&["History"]);
    fixture.public_scan_b = true;
    let candidate = normalize_doc(&fixture).expect("candidate");
    assert_eq!(candidate.work_key, "OL1W");
    assert_eq!(candidate.edition_key, "OL2M");
    assert_eq!(candidate.isbn_13, "9780306406157");
    let import = import_from_doc(&fixture, &"{}".to_string()).expect("import");
    assert_eq!(import.subjects, vec!["History"]);
}

#[test]
fn open_library_documents_become_catalog_results() {
    let mut fixture = doc("/works/OL1W", "  Example ", &["OL2M", "OL3M"]);
    fixture.first_publish_year = Some(2021);
    fixture.cover_i = Some(42);
    fixture.number_of_pages_median = Some(0);
    fixture.isbn = strings(&["0-306-40615-2", "9780306406157", "0306406152"]);
    let r = normalize_doc(&fixture).unwrap();
    assert_eq!(r.title, "Example");
    assert_eq!(r.external_id, "OL2M");
    assert_eq!(r.published_date, "2021");
    assert_eq!(r.isbn_10, "0306406152");
    assert_eq!(r.cover_url, "https://covers.openlibrary.org/b/id/42-L.jpg");
    assert_eq!(r.info_url, "https://openlibrary.org/works/OL1W");
    assert_eq!(r.page_count, None);
    assert_eq!(r.provider_badges, vec!["Open Library"]);
    assert_eq!(r.source_identities.len(), 2);
    assert_eq!(r.source_identities[1].source_url, "https://openlibrary.org/books/OL2M");
    let edition_only = normalize_doc(&doc("", "Solo", &["OL9M"])).unwrap();
    assert_eq!(edition_only.info_url, "https://openlibrary.org/books/OL9M");
    assert_eq!(edition_only.source_identities.len(), 1);
    assert!(normalize_doc(&doc("/works/OL1W", "   ", &[])).is_none());
    assert_eq!(key_tail_of("/works/OL1W"), "OL1W");
    assert_eq!(key_tail_of("plain"), "plain");
    let (i10, i13) = normalized_isbns(&strings(&["bad", "9780306406157"]));
    assert_eq!((i10.as_str(), i13.as_str()), ("", "9780306406157"));
}

fn volume() -> GoogleVolume {
    GoogleVolume {
        id: "abc123".to_string(),
        volume_info: GoogleVolumeInfo {
            title: Some("Example".to_string()),
            subtitle: None,
            authors: strings(&["A. Author"]),
            publisher: None,
            published_date: Some("2020".to_string()),
            description: Some("A <b>book</b>.".to_string()),
            industry_identifiers: vec![GoogleIndustryIdentifier {
                identifier_type: "ISBN_13".to_string(),
                identifier: "9780306406157".to_string(),
            }],
            page_count: Some(320),
            categories: Vec::new(),
            ratings_count: None,
            language: None,
            image_links: None,
            preview_link: None,
            info_link: None,
        },
        sale_info: None,
        access_info: None,
    }
}

#[test]
fn normalizes_google_fixture_without_network() {
    let candidate = normalize_volume(&volume());
    assert_eq!(candidate.external_id, "abc123");
    assert_eq!(candidate.isbn_13, "9780306406157");
    assert_eq!(candidate.description, "A book.");
    assert_eq!(candidate.page_count, Some(320));
}

#[test]
fn google_volumes_use_secure_covers_and_sale_format() {
    let mut v = volume();
    v.volume_info.image_links = Some(GoogleImageLinks {
        small_thumbnail: Some("http://books.google.com/small".to_string()),
        thumbnail: None,
    });
    v.volume_info.info_link = Some("https://books.google.com/info".to_string());
    v.sale_info = Some(GoogleSaleInfo { is_ebook: true, buy_link: None });
    let r = normalize_volume(&v);
    assert_eq!(r.cover_url, "https://books.google.com/small");
    assert_eq!(r.format, BookFormat::Ebook);
    assert_eq!(r.source_identities[0].source_url, "https://books.google.com/info");
    v.volume_info.image_links = Some(GoogleImageLinks {
        small_thumbnail: None,
        thumbnail: Some("http://books.googleusercontent.com/t".to_string()),
    });
    assert_eq!(normalize_volume(&v).cover_url, "https://books.googleusercontent.com/t");
}

#[test]
fn graphql_errors_are_failures_even_with_http_success() {
    let envelope: GraphQlEnvelope<()> = GraphQlEnvelope {
        data: None,
        errors: vec![GraphQlError { message: "query failed".to_string() }],
    };
    let error = decode_graphql_envelope(envelope).expect_err("GraphQL error should fail");
    assert!(error.message.contains("query failed"));
}

#[test]
fn graphql_envelopes_give_their_data() {
    let ok = decode_graphql_envelope(GraphQlEnvelope { data: Some(7), errors: Vec::new() });
    assert_eq!(ok.unwrap(), 7);
    let both = decode_graphql_envelope(GraphQlEnvelope {
        data: Some(7),
        errors: vec![
            GraphQlError { message: "a".to_string() },
            GraphQlError { message: "b".to_string() },
        ],
    })
    .unwrap_err();
    assert_eq!(both.kind, MediaErrorKind::ProviderUnavailable);
    assert_eq!(both.message, "Hardcover GraphQL error: a; b");
    let none: GraphQlEnvelope<i32> = GraphQlEnvelope { data: None, errors: Vec::new() };
    assert_eq!(decode_graphql_envelope(none).unwrap_err().message, "Hardcover returned no GraphQL data.");
}

#[test]
fn identified_clients_use_the_documented_three_per_second_limit() {
    assert_eq!(open_library_interval_millis(true), 334);
    assert_eq!(open_library_interval_millis(false), 1000);
}

#[test]
fn hardcover_edition_facts() {
    assert_eq!(hardcover_format_of(Some("Hardcover"), None), BookFormat::Hardcover);
    assert_eq!(hardcover_format_of(Some("Mass Market Paperback"), Some(0)), BookFormat::Paperback);
    assert_eq!(hardcover_format_of(Some("Kindle Edition"), None), BookFormat::Ebook);
    assert_eq!(hardcover_format_of(Some("Vinyl"), None), BookFormat::Other);
    assert_eq!(hardcover_format_of(None, None), BookFormat::Unknown);
    assert_eq!(hardcover_format_of(Some("Hardcover"), Some(60)), BookFormat::Audiobook);
    assert_eq!(audio_minutes(Some(61)), Some(2));
    assert_eq!(audio_minutes(Some(120)), Some(2));
    assert_eq!(audio_minutes(Some(0)), None);
    assert_eq!(exact_isbn_of(Some("978-0-306-40615-7"), 13), "9780306406157");
    assert_eq!(exact_isbn_of(Some("978-0-306-40615-7"), 10), "");
    assert_eq!(hardcover_book_url(Some("work-title")), "https://hardcover.app/books/work-title");
    assert_eq!(hardcover_book_url(None), "");
}

fn book_filter() -> BookLibraryFilter {
    BookLibraryFilter {
        query: String::new(),
        library_status: None,
        ownership_status: None,
        preferred_format: None,
        author_query: String::new(),
        tag_id: None,
        is_favorite: None,
        is_read_next: None,
        sort: "TITLE".to_string(),
        sort_direction: "ASC".to_string(),
    }
}

fn facts() -> BookListFacts {
    BookListFacts {
        title: "Dune".to_string(),
        subtitle: String::new(),
        primary_author_text: "Frank Herbert".to_string(),
        notes: "reread".to_string(),
        library_status: MediaLibraryStatus::Watching,
        ownership_status: BookOwnershipStatus::Owned,
        preferred_format: BookFormat::Paperback,
        is_favorite: true,
        is_read_next: false,
    }
}

#[test]
fn book_list_filters_and_order() {
    let mut f = book_filter();
    assert!(book_matches_filter(&f, &facts()));
    f.query = " HERBERT ".to_string();
    assert!(book_matches_filter(&f, &facts()));
    f.query = "REREAD".to_string();
    assert!(book_matches_filter(&f, &facts()));
    f.query = "asimov".to_string();
    assert!(!book_matches_filter(&f, &facts()));
    let mut f = book_filter();
    f.author_query = "frank".to_string();
    f.is_favorite = Some(true);
    f.library_status = Some(MediaLibraryStatus::Watching);
    assert!(book_matches_filter(&f, &facts()));
    f.is_read_next = Some(true);
    assert!(!book_matches_filter(&f, &facts()));
    let order = |s: &str, d: &str| -> String { book_order_terms_chars(s, d).into_iter().collect() };
    assert_eq!(order("author", "asc"), "work.primary_author_text COLLATE NOCASE ASC");
    assert_eq!(order("READ_NEXT", "asc"), "reader.reading_queue_position IS NULL, reader.reading_queue_position");
    assert_eq!(order("", "desc"), "entry.added_at DESC");
}
