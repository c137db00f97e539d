use overlay_forge::book_providers::{
    GoogleAccessInfo, GoogleIndustryIdentifier, GoogleSaleInfo, GoogleVolume, GoogleVolumeInfo,
};
use overlay_forge::books::BookFormat;
use overlay_forge::media::MediaErrorKind;
use overlay_forge::provider_imports::{
    google_volume_import, hardcover_import, HardcoverBookFacts, HardcoverEditionFacts,
    HardcoverSeriesMember,
};

fn strings(v: &[&str]) -> Vec<String> {
    v.iter().map(|s| s.to_string()).collect()
}

fn volume(title: Option<&str>) -> GoogleVolume {
    GoogleVolume {
        id: "abc123".to_string(),
        volume_info: GoogleVolumeInfo {
            title: title.map(str::to_string),
            subtitle: Some("A Subtitle".to_string()),
            authors: strings(&["A. Author", "B. Author"]),
            publisher: Some("Press".to_string()),
            published_date: Some("2020-05-01".to_string()),
            description: Some("A <b>book</b>.".to_string()),
            industry_identifiers: vec![GoogleIndustryIdentifier {
                identifier_type: "ISBN_13".to_string(),
                identifier: "9780306406157".to_string(),
            }],
            page_count: Some(320),
            categories: strings(&["Fiction"]),
            ratings_count: Some(12),
            language: Some("en".to_string()),
            image_links: None,
            preview_link: Some("https://books.example/preview".to_string()),
            info_link: Some("https://books.example/info".to_string()),
        },
        sale_info: Some(GoogleSaleInfo {
            is_ebook: true,
            buy_link: Some("https://books.example/buy".to_string()),
        }),
        access_info: Some(GoogleAccessInfo {
            viewability: Some("PARTIAL".to_string()),
            web_reader_link: Some("https://books.example/read".to_string()),
        }),
    }
}

#[test]
fn google_volumes_become_imports_with_one_edition_source_and_their_links() {
    let import = google_volume_import(&volume(Some("Example")), "{\"id\":\"abc123\"}".to_string())
        .expect("a titled volume imports");
    assert_eq!(import.title, "Example");
    assert_eq!(import.subtitle, "A Subtitle");
    assert_eq!(import.description, "A book.");
    assert_eq!(import.authors, strings(&["A. Author", "B. Author"]));
    assert_eq!(import.first_publish_year, Some(2020));
    assert_eq!(import.subjects, strings(&["Fiction"]));
    assert_eq!(import.community_rating_count, Some(12));
    assert_eq!(import.editions.len(), 1);
    assert_eq!(import.editions[0].isbn_13, "9780306406157");
    assert_eq!(import.editions[0].page_count, Some(320));
    assert!(import.editions[0].is_ebook);
    assert_eq!(import.editions[0].access_viewability, "PARTIAL");
    assert_eq!(import.sources.len(), 1);
    assert_eq!(import.sources[0].source_key, "google_books");
    assert_eq!(import.sources[0].entity_type, "EDITION");
    assert_eq!(import.sources[0].external_id, "abc123");
    assert_eq!(import.sources[0].source_url, "https://books.example/info");
    assert_eq!(import.sources[0].metadata_json, "{\"id\":\"abc123\"}");
    assert_eq!(import.sources[0].edition_index, Some(0));
    let links: Vec<(&str, &str)> =
        import.links.iter().map(|l| (l.link_type.as_str(), l.url.as_str())).collect();
    assert_eq!(
        links,
        vec![
            ("INFO", "https://books.example/info"),
            ("PREVIEW", "https://books.example/preview"),
            ("BUY", "https://books.example/buy"),
            ("READ", "https://books.example/read"),
        ]
    );
}

#[test]
fn google_volumes_without_a_title_are_refused() {
    let error = match google_volume_import(&volume(Some("   ")), "{}".to_string()) {
        Ok(_) => panic!("a volume without a title is refused"),
        Err(e) => e,
    };
    assert_eq!(error.kind, MediaErrorKind::ProviderUnavailable);
    assert_eq!(error.message, "Google Books returned a volume without a title.");
    assert!(google_volume_import(&volume(None), "{}".to_string()).is_err());
}

fn edition_facts() -> HardcoverEditionFacts {
    HardcoverEditionFacts {
        id: 77,
        title: Some("Edition Title".to_string()),
        subtitle: Some("Sub".to_string()),
        physical_format: Some("Hardcover".to_string()),
        audio_seconds: None,
        isbn_10: Some("0-306-40615-2".to_string()),
        isbn_13: Some("not an isbn".to_string()),
        publisher: Some("Hard Press".to_string()),
        release_date: Some("1999-12-31".to_string()),
        pages: Some(0),
        users_count: Some(3),
        payload: "{\"edition\":77}".to_string(),
    }
}

#[test]
fn hardcover_editions_with_a_book_take_its_title_page_and_count() {
    let book = HardcoverBookFacts {
        id: 5,
        slug: Some("the-book".to_string()),
        title: Some("Book Title".to_string()),
        description: Some("<p>Nice &amp; short</p>".to_string()),
        users_count: Some(40),
        series: vec![
            HardcoverSeriesMember { series_name: Some("Saga".to_string()), position_text: "3".to_string() },
            HardcoverSeriesMember { series_name: None, position_text: "9".to_string() },
        ],
        payload: "{\"book\":5}".to_string(),
    };
    let import = hardcover_import(edition_facts(), Some(book));
    assert_eq!(import.title, "Book Title");
    assert_eq!(import.subtitle, "Sub");
    assert_eq!(import.description, "Nice & short");
    assert_eq!(import.first_publish_year, Some(1999));
    assert_eq!(import.community_rating_count, Some(40));
    assert!(import.authors.is_empty() && import.subjects.is_empty() && import.links.is_empty());
    assert_eq!(import.series.len(), 1);
    assert_eq!(
        (import.series[0].name.as_str(), import.series[0].position_text.as_str(), import.series[0].source_key.as_str()),
        ("Saga", "3", "hardcover")
    );
    let edition = &import.editions[0];
    assert_eq!(edition.title, "Book Title");
    assert_eq!(edition.format, BookFormat::Hardcover);
    assert_eq!(edition.isbn_10, "0306406152");
    assert_eq!(edition.isbn_13, "");
    assert_eq!(edition.page_count, None);
    assert_eq!(edition.publisher, "Hard Press");
    let sources: Vec<(Option<usize>, &str, &str, &str, &str)> = import
        .sources
        .iter()
        .map(|s| {
            (
                s.edition_index,
                s.entity_type.as_str(),
                s.external_id.as_str(),
                s.source_url.as_str(),
                s.metadata_json.as_str(),
            )
        })
        .collect();
    assert_eq!(
        sources,
        vec![
            (Some(0), "EDITION", "77", "https://hardcover.app/books/the-book", "{\"edition\":77}"),
            (None, "BOOK", "5", "https://hardcover.app/books/the-book", "{\"book\":5}"),
        ]
    );
}

#[test]
fn hardcover_editions_without_a_book_use_their_own_facts() {
    let mut facts = edition_facts();
    facts.audio_seconds = Some(3601);
    facts.release_date = Some("19".to_string());
    let import = hardcover_import(facts, None);
    assert_eq!(import.title, "Edition Title");
    assert_eq!(import.description, "");
    assert_eq!(import.first_publish_year, None);
    assert_eq!(import.community_rating_count, Some(3));
    assert_eq!(import.editions[0].audio_duration_minutes, Some(61));
    assert_eq!(import.editions[0].format, BookFormat::Audiobook);
    assert_eq!(import.sources.len(), 1);
    assert_eq!(import.sources[0].source_url, "");
}

#[test]
fn normalizes_hardcover_fixture_without_network() {
    // The fixture's edition and book records, with the series position
    // shown as text (the community rating is a decimal and is not imported).
    let edition = HardcoverEditionFacts {
        id: 12,
        title: Some("Edition title".to_string()),
        subtitle: None,
        physical_format: Some("Hardcover".to_string()),
        audio_seconds: None,
        isbn_10: None,
        isbn_13: Some("9780306406157".to_string()),
        publisher: Some("Press".to_string()),
        release_date: None,
        pages: Some(400),
        users_count: Some(50),
        payload: "{\"id\":12}".to_string(),
    };
    let book = HardcoverBookFacts {
        id: 8,
        slug: Some("work-title".to_string()),
        title: Some("Work title".to_string()),
        description: Some("A <i>story</i>".to_string()),
        users_count: Some(100),
        series: vec![HardcoverSeriesMember {
            series_name: Some("A Series".to_string()),
            position_text: "2.5".to_string(),
        }],
        payload: "{\"id\":8}".to_string(),
    };
    let import = hardcover_import(edition, Some(book));
    assert_eq!(import.title, "Work title");
    assert_eq!(import.editions[0].title, "Work title");
    assert_eq!(import.editions[0].format, BookFormat::Hardcover);
    assert_eq!(import.series.len(), 1);
    assert_eq!(import.series[0].name, "A Series");
    assert_eq!(import.series[0].position_text, "2.5");
    assert_eq!(import.sources.len(), 2);
    assert_eq!(import.description, "A story");
    assert_eq!(import.community_rating_count, Some(100));
}
