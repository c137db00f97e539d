use overlay_forge::book_import::{BookImport, NormalizedBookSeries};
use overlay_forge::book_service::BookRepository;
use overlay_forge::book_store::validate_import;
use overlay_forge::books::{
    BookFormat, BookLinkInput, BookOwnershipStatus, BookProviderFailure, ManualBookEditionInput,
    NormalizedBookEdition, NormalizedBookLink, NormalizedBookSource, UpdateBookReaderStateInput,
};
use overlay_forge::database::AppDatabase;
use overlay_forge::media::{MediaErrorKind, MediaLibraryStatus};
use overlay_forge::media_schema::migrate_schema;

fn database() -> AppDatabase {
    let connection = rusqlite::Connection::open_in_memory().expect("connection");
    migrate_schema(&connection).expect("schema should migrate");
    AppDatabase::new(connection)
}

fn edition(isbn_13: &str) -> NormalizedBookEdition {
    NormalizedBookEdition {
        title: "Example".to_string(),
        subtitle: String::new(),
        format: BookFormat::Paperback,
        isbn_10: String::new(),
        isbn_13: isbn_13.to_string(),
        publisher: "Press".to_string(),
        published_date: "2020".to_string(),
        language: "en".to_string(),
        page_count: Some(320),
        audio_duration_minutes: None,
        cover_url: String::new(),
        is_ebook: false,
        access_viewability: String::new(),
    }
}

fn import(external_id: &str, isbn_13: &str) -> BookImport {
    BookImport {
        title: "  Example  ".to_string(),
        subtitle: "Sub".to_string(),
        description: "About it.".to_string(),
        authors: vec!["A.  Author".to_string(), "   ".to_string(), "B. Author".to_string()],
        first_publish_year: Some(2020),
        subjects: vec!["Fiction".to_string(), "Sea \"stories\"".to_string(), "tab\tand\u{1}".to_string()],
        canonical_cover_url: "https://covers.example/1.jpg".to_string(),
        community_rating_count: Some(7),
        editions: vec![edition(isbn_13)],
        sources: vec![NormalizedBookSource {
            edition_index: Some(0),
            source_key: "google_books".to_string(),
            entity_type: "EDITION".to_string(),
            external_id: external_id.to_string(),
            source_url: "https://books.example/info".to_string(),
            metadata_json: "{}".to_string(),
        }],
        links: vec![NormalizedBookLink {
            edition_index: Some(0),
            source_key: "google_books".to_string(),
            link_type: "info".to_string(),
            url: "https://books.example/info".to_string(),
            region_code: String::new(),
        }],
        series: vec![NormalizedBookSeries {
            name: " The Saga ".to_string(),
            position_text: "2.5".to_string(),
            source_key: "google_books".to_string(),
        }],
    }
}

fn text(db: &AppDatabase, sql: &str, entry_id: i64) -> String {
    db.connection.query_row(sql, [entry_id], |row| row.get(0)).expect("row")
}

fn count(db: &AppDatabase, sql: &str) -> i64 {
    db.connection.query_row(sql, [], |row| row.get(0)).expect("count")
}

#[test]
fn imports_store_the_whole_book_once_and_duplicates_return_the_entry() {
    let db = database();
    let repository = BookRepository::new(&db);
    let entry_id = repository
        .add_import(&import("vol-1", "9780306406157"), MediaLibraryStatus::Planned, &Vec::new())
        .expect("import is stored")
        .entry_id;
    assert_eq!(
        text(&db, "SELECT title.title FROM obj_media_library_entry entry JOIN obj_media_title title ON title.id = entry.media_title_id WHERE entry.id = ?1", entry_id),
        "Example"
    );
    assert_eq!(
        text(&db, "SELECT title.release_date FROM obj_media_library_entry entry JOIN obj_media_title title ON title.id = entry.media_title_id WHERE entry.id = ?1", entry_id),
        "2020"
    );
    assert_eq!(
        text(&db, "SELECT work.primary_author_text FROM obj_media_library_entry entry JOIN obj_media_book_work work ON work.media_title_id = entry.media_title_id WHERE entry.id = ?1", entry_id),
        "A.  Author,    , B. Author"
    );
    assert_eq!(
        text(&db, "SELECT work.subjects_json FROM obj_media_library_entry entry JOIN obj_media_book_work work ON work.media_title_id = entry.media_title_id WHERE entry.id = ?1", entry_id),
        "[\"Fiction\",\"Sea \\\"stories\\\"\",\"tab\\tand\\u0001\"]"
    );
    assert_eq!(
        text(&db, "SELECT reader.preferred_format FROM obj_media_book_reader_state reader WHERE reader.media_library_entry_id = ?1", entry_id),
        "PAPERBACK"
    );
    assert_eq!(count(&db, "SELECT COUNT(*) FROM obj_media_book_author"), 2);
    assert_eq!(count(&db, "SELECT COUNT(*) FROM obj_media_book_edition"), 1);
    assert_eq!(count(&db, "SELECT COUNT(*) FROM obj_media_book_link WHERE link_type = 'INFO'"), 1);
    assert_eq!(count(&db, "SELECT COUNT(*) FROM obj_media_book_series WHERE name = 'The Saga'"), 1);
    let (position_text, position_sort): (String, f64) = db
        .connection
        .query_row(
            "SELECT position_text, position_sort FROM obj_media_book_series_member",
            [],
            |row| Ok((row.get(0)?, row.get(1)?)),
        )
        .expect("series member");
    assert_eq!(position_text, "2.5");
    assert_eq!(position_sort, 2.5);

    let failures = vec![BookProviderFailure {
        source_key: "open_library".to_string(),
        message: "Open Library is down.".to_string(),
    }];
    let again = repository
        .add_import(&import("vol-2", "9780306406157"), MediaLibraryStatus::Planned, &failures)
        .expect("duplicates are found by ISBN");
    assert_eq!(again.provider_warnings, vec!["Open Library: Open Library is down.".to_string()]);
    let again = again.entry_id;
    assert_eq!(again, entry_id);
    assert_eq!(count(&db, "SELECT COUNT(*) FROM obj_media_library_entry"), 1);
    assert_eq!(
        count(&db, "SELECT COUNT(*) FROM obj_media_book_source_record WHERE source_key = 'open_library' AND last_refresh_status = 'FAILED'"),
        1
    );
    let by_source = repository
        .add_import(&import("vol-1", ""), MediaLibraryStatus::Planned, &Vec::new())
        .expect("duplicates are found by provider identity")
        .entry_id;
    assert_eq!(by_source, entry_id);
}

#[test]
fn imports_with_a_problem_are_refused_before_anything_is_stored() {
    let db = database();
    let repository = BookRepository::new(&db);
    let mut blank = import("vol-1", "");
    blank.title = "  ".to_string();
    let error = repository.add_import(&blank, MediaLibraryStatus::Planned, &Vec::new()).unwrap_err();
    assert_eq!(error.kind, MediaErrorKind::Validation);
    assert_eq!(error.message, "A normalized book title is required.");

    let mut no_editions = import("vol-1", "");
    no_editions.editions.clear();
    assert_eq!(
        validate_import(&no_editions).unwrap_err().message,
        "A book import requires at least one edition."
    );
    let mut bad_isbn = import("vol-1", "");
    bad_isbn.editions[0].isbn_10 = "123".to_string();
    assert_eq!(validate_import(&bad_isbn).unwrap_err().message, "A provider returned an invalid ISBN-10.");
    let mut bad_pages = import("vol-1", "");
    bad_pages.editions[0].page_count = Some(0);
    assert_eq!(
        validate_import(&bad_pages).unwrap_err().message,
        "Book page counts and audio durations must be positive."
    );
    let mut bad_link = import("vol-1", "");
    bad_link.links[0].link_type = "shop".to_string();
    assert_eq!(
        validate_import(&bad_link).unwrap_err().message,
        "Book link type must be INFO, PREVIEW, READ, BORROW, BUY, or OTHER."
    );
    let mut bad_url = import("vol-1", "");
    bad_url.links[0].url = "ftp://books.example".to_string();
    assert_eq!(validate_import(&bad_url).unwrap_err().message, "Only http and https URLs can be opened.");
    assert_eq!(count(&db, "SELECT COUNT(*) FROM obj_media_title"), 0);
}

#[test]
fn partial_provider_failure_is_stored_separately_from_successful_sources() {
    let db = database();
    let repository = BookRepository::new(&db);
    let failures = vec![BookProviderFailure {
        source_key: "open_library".to_string(),
        message: "temporary outage".to_string(),
    }];
    let outcome = repository
        .add_import(&import("google-volume-1", "9780306406157"), MediaLibraryStatus::Planned, &failures)
        .expect("successful provider import should survive optional failure");
    let google: (String, String) = db
        .connection
        .query_row(
            "SELECT last_refresh_status, last_refresh_error FROM obj_media_book_source_record WHERE source_key = 'google_books'",
            [],
            |row| Ok((row.get(0)?, row.get(1)?)),
        )
        .expect("google row");
    assert_eq!(google, ("SUCCESS".to_string(), String::new()));
    let open_library: (String, String) = db
        .connection
        .query_row(
            "SELECT last_refresh_status, last_refresh_error FROM obj_media_book_source_record WHERE source_key = 'open_library'",
            [],
            |row| Ok((row.get(0)?, row.get(1)?)),
        )
        .expect("open library row");
    assert_eq!(open_library, ("FAILED".to_string(), "temporary outage".to_string()));
    assert_eq!(outcome.provider_warnings, vec!["Open Library: temporary outage".to_string()]);
}

fn provider_import(title: &str) -> BookImport {
    BookImport {
        title: title.to_string(),
        subtitle: "Provider subtitle".to_string(),
        description: "Provider description".to_string(),
        authors: vec!["Provider Author".to_string()],
        first_publish_year: Some(2024),
        subjects: vec!["Fiction".to_string()],
        canonical_cover_url: String::new(),
        community_rating_count: Some(10),
        editions: vec![NormalizedBookEdition {
            title: title.to_string(),
            subtitle: String::new(),
            format: BookFormat::Paperback,
            isbn_10: String::new(),
            isbn_13: "9780306406157".to_string(),
            publisher: "Provider Press".to_string(),
            published_date: "2024".to_string(),
            language: "en".to_string(),
            page_count: Some(200),
            audio_duration_minutes: None,
            cover_url: String::new(),
            is_ebook: false,
            access_viewability: String::new(),
        }],
        sources: vec![NormalizedBookSource {
            edition_index: Some(0),
            source_key: "google_books".to_string(),
            entity_type: "EDITION".to_string(),
            external_id: "google-volume-1".to_string(),
            source_url: "https://books.google.com/books?id=google-volume-1".to_string(),
            metadata_json: "{\"version\":1}".to_string(),
        }],
        links: vec![NormalizedBookLink {
            edition_index: Some(0),
            source_key: "google_books".to_string(),
            link_type: "INFO".to_string(),
            url: "https://books.google.com/books?id=google-volume-1".to_string(),
            region_code: String::new(),
        }],
        series: Vec::new(),
    }
}

#[test]
fn provider_refresh_preserves_every_user_owned_field() {
    let db = database();
    let repository = BookRepository::new(&db);
    let entry_id = repository
        .add_import(&provider_import("Original"), MediaLibraryStatus::Planned, &Vec::new())
        .expect("provider import")
        .entry_id;
    repository
        .update_reader_state(
            entry_id,
            &UpdateBookReaderStateInput {
                ownership_status: BookOwnershipStatus::Owned,
                preferred_format: BookFormat::Paperback,
            },
        )
        .expect("reader state");
    // Progress values are decimals, written here as the progress screen stores them.
    db.connection
        .execute(
            "UPDATE obj_media_book_reader_state SET progress_unit='PAGE', progress_value=75.0,
                progress_total_override=250.0, current_chapter='Chapter 3'
             WHERE media_library_entry_id=?1",
            [entry_id],
        )
        .expect("progress");
    repository.add_to_read_next(entry_id).expect("queue");
    repository
        .create_link(
            entry_id,
            &BookLinkInput {
                edition_id: None,
                link_type: "READ".to_string(),
                url: "https://example.com/my-copy".to_string(),
                region_code: "CA".to_string(),
                is_preferred: true,
            },
        )
        .expect("user link");
    repository
        .create_edition(
            entry_id,
            &ManualBookEditionInput {
                title: "My edition".to_string(),
                subtitle: String::new(),
                format: BookFormat::Hardcover,
                isbn_10: String::new(),
                isbn_13: String::new(),
                publisher: "Local Press".to_string(),
                published_date: "2025".to_string(),
                language: "en-CA".to_string(),
                page_count: Some(250),
                audio_duration_minutes: None,
                cover_url: String::new(),
            },
        )
        .expect("manual edition");
    let manual_edition_id: i64 = db
        .connection
        .query_row("SELECT id FROM obj_media_book_edition WHERE title='My edition'", [], |row| row.get(0))
        .expect("manual edition detail");
    db.connection
        .execute(
            "UPDATE obj_media_book_reader_state SET preferred_edition_id=?2 WHERE media_library_entry_id=?1",
            [entry_id, manual_edition_id],
        )
        .expect("preferred manual edition");
    let title_id: i64 = db
        .connection
        .query_row("SELECT media_title_id FROM obj_media_library_entry WHERE id=?1", [entry_id], |row| row.get(0))
        .expect("title");
    db.connection
        .execute("INSERT INTO obj_media_book_series (name) VALUES ('My Series')", [])
        .expect("series override");
    let series_id = db.connection.last_insert_rowid();
    db.connection
        .execute(
            "INSERT INTO obj_media_book_series_member
                (series_id, media_title_id, position_text, position_sort, is_primary, source_key, is_user_override)
             VALUES (?1, ?2, '3', 3.0, 1, 'manual', 1)",
            [series_id, title_id],
        )
        .expect("series override");
    db.connection
        .execute(
            "UPDATE obj_media_library_entry SET
                library_status='ON_HOLD',is_favorite=1,personal_rating=9.0,
                notes='Personal note',priority=7,
                started_at='2026-01-02 03:04:05',completed_at='2026-02-03 04:05:06'
             WHERE id=?1",
            [entry_id],
        )
        .expect("shared user state");
    db.connection
        .execute("INSERT INTO obj_media_tag (name) VALUES ('Keeper')", [])
        .expect("tag");
    let tag_id = db.connection.last_insert_rowid();
    db.connection
        .execute(
            "INSERT INTO n2n_media_library_entry_tag (media_library_entry_id,media_tag_id) VALUES (?1,?2)",
            [entry_id, tag_id],
        )
        .expect("tag mapping");

    let mut refreshed = provider_import("Refreshed title");
    refreshed.description = "New provider description".to_string();
    refreshed.editions[0].page_count = Some(220);
    let outcome = repository
        .refresh_import(entry_id, &refreshed, &Vec::new())
        .expect("refresh should succeed");
    assert_eq!(outcome.entry_id, entry_id);
    assert_eq!(text(&db, "SELECT title FROM obj_media_title WHERE id=?1", title_id), "Refreshed title");
    let (value, total, chapter, ownership, queue, preferred): (f64, f64, String, String, i64, i64) = db
        .connection
        .query_row(
            "SELECT progress_value, progress_total_override, current_chapter, ownership_status,
                reading_queue_position, preferred_edition_id
             FROM obj_media_book_reader_state WHERE media_library_entry_id=?1",
            [entry_id],
            |row| Ok((row.get(0)?, row.get(1)?, row.get(2)?, row.get(3)?, row.get(4)?, row.get(5)?)),
        )
        .expect("reader state row");
    assert_eq!(value, 75.0);
    assert_eq!(total, 250.0);
    assert_eq!(chapter, "Chapter 3");
    assert_eq!(ownership, "OWNED");
    assert_eq!(queue, 1);
    assert_eq!(preferred, manual_edition_id);
    let (status, favorite, rating, notes, priority, started, completed): (String, i64, f64, String, i64, String, String) = db
        .connection
        .query_row(
            "SELECT library_status, is_favorite, personal_rating, notes, priority, started_at, completed_at
             FROM obj_media_library_entry WHERE id=?1",
            [entry_id],
            |row| Ok((row.get(0)?, row.get(1)?, row.get(2)?, row.get(3)?, row.get(4)?, row.get(5)?, row.get(6)?)),
        )
        .expect("entry row");
    assert_eq!(status, "ON_HOLD");
    assert_eq!(favorite, 1);
    assert_eq!(rating, 9.0);
    assert_eq!(notes, "Personal note");
    assert_eq!(priority, 7);
    assert_eq!(started, "2026-01-02 03:04:05");
    assert_eq!(completed, "2026-02-03 04:05:06");
    let manual_present: i64 = db
        .connection
        .query_row("SELECT is_present_in_source FROM obj_media_book_edition WHERE id=?1", [manual_edition_id], |row| row.get(0))
        .expect("manual edition row");
    assert_eq!(manual_present, 1);
    assert_eq!(
        count(&db, "SELECT COUNT(*) FROM obj_media_book_series_member m JOIN obj_media_book_series s ON s.id=m.series_id WHERE s.name='My Series' AND m.is_user_override=1"),
        1
    );
    assert_eq!(
        count(&db, "SELECT COUNT(*) FROM n2n_media_library_entry_tag n JOIN obj_media_tag t ON t.id=n.media_tag_id WHERE t.name='Keeper'"),
        1
    );
    assert_eq!(
        count(&db, "SELECT COUNT(*) FROM obj_media_book_link WHERE is_user_owned=1 AND url='https://example.com/my-copy'"),
        1
    );
    let provider_pages: i64 = db
        .connection
        .query_row("SELECT page_count FROM obj_media_book_edition WHERE isbn_13='9780306406157'", [], |row| row.get(0))
        .expect("provider edition");
    assert_eq!(provider_pages, 220);
    assert_eq!(count(&db, "SELECT COUNT(*) FROM obj_media_book_edition WHERE isbn_13='9780306406157'"), 1);
    assert_eq!(count(&db, "SELECT COUNT(*) FROM obj_media_book_link WHERE is_user_owned=0"), 1);
}

#[test]
fn refresh_of_a_missing_entry_is_not_found_and_a_failed_fetch_is_recorded() {
    let db = database();
    let repository = BookRepository::new(&db);
    let error = repository
        .refresh_import(99, &provider_import("Nothing"), &Vec::new())
        .expect_err("missing entry");
    assert_eq!(error.kind, MediaErrorKind::NotFound);
    let entry_id = repository
        .add_import(&provider_import("Cached"), MediaLibraryStatus::Planned, &Vec::new())
        .expect("provider import")
        .entry_id;
    let failure = overlay_forge::media::MediaError::new(MediaErrorKind::Network, "temporary outage".to_string());
    let error = repository
        .apply_refresh(entry_id, "google_books", Err(failure))
        .expect_err("the fetch error comes back");
    assert_eq!(error.kind, MediaErrorKind::Network);
    assert_eq!(error.message, "temporary outage");
    let (payload, status, message): (String, String, String) = db
        .connection
        .query_row(
            "SELECT metadata_json,last_refresh_status,last_refresh_error FROM obj_media_book_source_record WHERE source_key='google_books'",
            [],
            |row| Ok((row.get(0)?, row.get(1)?, row.get(2)?)),
        )
        .expect("source record");
    assert_eq!(payload, "{\"version\":1}");
    assert_eq!(status, "FAILED");
    assert_eq!(message, "Network: temporary outage");
    let warnings = vec![BookProviderFailure {
        source_key: "open_library".to_string(),
        message: "slow".to_string(),
    }];
    let outcome = repository
        .apply_refresh(entry_id, "google_books", Ok((provider_import("Cached again"), warnings)))
        .expect("refresh");
    assert_eq!(outcome.entry_id, entry_id);
    assert_eq!(outcome.provider_warnings, vec!["Open Library: slow".to_string()]);
    let status: String = db
        .connection
        .query_row(
            "SELECT last_refresh_status FROM obj_media_book_source_record WHERE source_key='google_books'",
            [],
            |row| row.get(0),
        )
        .expect("source record");
    assert_eq!(status, "SUCCESS");
}

fn book_filter() -> overlay_forge::books::BookLibraryFilter {
    overlay_forge::books::BookLibraryFilter {
        query: String::new(),
        library_status: None,
        ownership_status: None,
        preferred_format: None,
        author_query: String::new(),
        tag_id: None,
        is_favorite: None,
        is_read_next: None,
        sort: "TITLE".to_string(),
        sort_direction: "ASC".to_string(),
    }
}

#[test]
fn book_list_reads_items_and_applies_the_filters() {
    let db = database();
    let repository = BookRepository::new(&db);
    let first = repository
        .add_import(&provider_import("Alpha"), MediaLibraryStatus::Planned, &Vec::new())
        .expect("first")
        .entry_id;
    let mut other = provider_import("Beta");
    other.sources[0].external_id = "google-volume-2".to_string();
    other.editions[0].isbn_13 = "9780131103627".to_string();
    other.authors = vec!["Someone Else".to_string()];
    let second = repository
        .add_import(&other, MediaLibraryStatus::Watching, &Vec::new())
        .expect("second")
        .entry_id;
    let items = repository.list(&book_filter()).expect("list");
    assert_eq!(items.iter().map(|i| i.entry_id).collect::<Vec<_>>(), vec![first, second]);
    assert_eq!(items[0].title, "Alpha");
    assert_eq!(items[0].primary_author_text, "Provider Author");
    assert_eq!(items[0].progress.effective_total, overlay_forge::book_progress::ProgressTotal::Count(200));
    let mut by_author = book_filter();
    by_author.author_query = " someone ".to_string();
    let found = repository.list(&by_author).expect("list");
    assert_eq!(found.len(), 1);
    assert_eq!(found[0].entry_id, second);
    let mut watching = book_filter();
    watching.library_status = Some(MediaLibraryStatus::Watching);
    assert_eq!(repository.list(&watching).expect("list").len(), 1);
    let mut tagged = book_filter();
    tagged.tag_id = Some(1);
    assert!(repository.list(&tagged).expect("list").is_empty());
}

#[test]
fn book_detail_reads_back_the_whole_book() {
    let db = database();
    let repository = BookRepository::new(&db);
    let mut book = provider_import("Alpha");
    book.series = vec![NormalizedBookSeries {
        name: "The Saga".to_string(),
        position_text: "2".to_string(),
        source_key: "google_books".to_string(),
    }];
    let entry_id = repository
        .add_import(&book, MediaLibraryStatus::Planned, &Vec::new())
        .expect("import")
        .entry_id;
    let detail = repository.get_detail(entry_id).expect("detail");
    assert_eq!(detail.item.entry_id, entry_id);
    assert_eq!(detail.item.title, "Alpha");
    assert_eq!(detail.editions.len(), 1);
    assert_eq!(detail.editions[0].isbn_13, "9780306406157");
    assert_eq!(detail.editions[0].source_keys, vec!["google_books".to_string()]);
    assert!(!detail.editions[0].is_user_owned);
    assert_eq!(detail.authors.len(), 1);
    assert_eq!(detail.authors[0].name, "Provider Author");
    assert_eq!(detail.links.len(), 1);
    assert_eq!(detail.links[0].link_type, "INFO");
    assert_eq!(detail.series.len(), 1);
    assert_eq!(detail.series[0].name, "The Saga");
    assert_eq!(detail.sources.len(), 1);
    assert_eq!(detail.sources[0].last_refresh_status, "SUCCESS");
    assert_eq!(detail.subjects, vec!["Fiction".to_string()]);
    assert_eq!(detail.community_rating_count, Some(10));
    assert!(detail.provider_warnings.is_empty());
    let missing = repository.get_detail(entry_id + 50).err().expect("missing");
    assert_eq!(missing.kind, MediaErrorKind::NotFound);
}
