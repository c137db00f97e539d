use overlay_forge::book_library::{
    local_edition_external_id, normalized_manual_edition, read_next_target,
};
use overlay_forge::book_service::BookRepository;
use overlay_forge::books::{
    BookFormat, BookLinkInput, BookOwnershipStatus, ManualBookEditionInput,
    UpdateBookReaderStateInput,
};
use overlay_forge::database::AppDatabase;
use overlay_forge::media::MediaErrorKind;

const SCHEMA: &str = r#"
        PRAGMA foreign_keys = ON;
        CREATE TABLE obj_media_title (
            id INTEGER PRIMARY KEY AUTOINCREMENT,
            source_key TEXT NOT NULL,
            content_type TEXT NOT NULL CHECK (content_type IN ('MOVIE', 'SERIES', 'BOOK')),
            title TEXT NOT NULL
        );
        CREATE TABLE obj_media_library_entry (
            id INTEGER PRIMARY KEY AUTOINCREMENT,
            media_title_id INTEGER NOT NULL UNIQUE,
            queue_position INTEGER UNIQUE,
            FOREIGN KEY (media_title_id) REFERENCES obj_media_title(id) ON DELETE CASCADE
        );
        CREATE TABLE IF NOT EXISTS obj_media_book_work (
            id INTEGER PRIMARY KEY AUTOINCREMENT,
            media_title_id INTEGER NOT NULL UNIQUE,
            subtitle TEXT NOT NULL DEFAULT '',
            primary_author_text TEXT NOT NULL DEFAULT '',
            first_publish_year INTEGER,
            subjects_json TEXT NOT NULL DEFAULT '[]',
            canonical_cover_url TEXT NOT NULL DEFAULT '',
            community_rating REAL,
            community_rating_count INTEGER,
            metadata_refreshed_at TEXT NOT NULL DEFAULT '',
            created_at TEXT NOT NULL DEFAULT CURRENT_TIMESTAMP,
            updated_at TEXT NOT NULL DEFAULT CURRENT_TIMESTAMP,
            FOREIGN KEY (media_title_id) REFERENCES obj_media_title(id) ON DELETE CASCADE
        );

        CREATE TABLE IF NOT EXISTS obj_media_book_edition (
            id INTEGER PRIMARY KEY AUTOINCREMENT,
            media_title_id INTEGER NOT NULL,
            title TEXT NOT NULL,
            subtitle TEXT NOT NULL DEFAULT '',
            format TEXT NOT NULL DEFAULT 'UNKNOWN'
                CHECK (format IN ('HARDCOVER','PAPERBACK','EBOOK','AUDIOBOOK','OTHER','UNKNOWN')),
            isbn_10 TEXT NOT NULL DEFAULT '',
            isbn_13 TEXT NOT NULL DEFAULT '',
            publisher TEXT NOT NULL DEFAULT '',
            published_date TEXT NOT NULL DEFAULT '',
            language TEXT NOT NULL DEFAULT '',
            page_count INTEGER CHECK (page_count IS NULL OR page_count > 0),
            audio_duration_minutes INTEGER
                CHECK (audio_duration_minutes IS NULL OR audio_duration_minutes > 0),
            cover_url TEXT NOT NULL DEFAULT '',
            is_ebook INTEGER NOT NULL DEFAULT 0,
            access_viewability TEXT NOT NULL DEFAULT '',
            is_present_in_source INTEGER NOT NULL DEFAULT 1,
            metadata_refreshed_at TEXT NOT NULL DEFAULT '',
            created_at TEXT NOT NULL DEFAULT CURRENT_TIMESTAMP,
            updated_at TEXT NOT NULL DEFAULT CURRENT_TIMESTAMP,
            FOREIGN KEY (media_title_id) REFERENCES obj_media_title(id) ON DELETE CASCADE
        );

        CREATE UNIQUE INDEX IF NOT EXISTS idx_media_book_edition_isbn13_unique
            ON obj_media_book_edition (isbn_13) WHERE isbn_13 <> '';
        CREATE UNIQUE INDEX IF NOT EXISTS idx_media_book_edition_isbn10_unique
            ON obj_media_book_edition (isbn_10) WHERE isbn_10 <> '';

        CREATE TABLE IF NOT EXISTS obj_media_book_source_record (
            id INTEGER PRIMARY KEY AUTOINCREMENT,
            media_title_id INTEGER NOT NULL,
            edition_id INTEGER,
            source_key TEXT NOT NULL
                CHECK (source_key IN ('google_books','open_library','hardcover','manual')),
            entity_type TEXT NOT NULL CHECK (entity_type IN ('WORK','EDITION','BOOK')),
            external_id TEXT NOT NULL,
            source_url TEXT NOT NULL DEFAULT '',
            metadata_json TEXT NOT NULL DEFAULT '{}',
            refreshed_at TEXT NOT NULL DEFAULT '',
            last_refresh_status TEXT NOT NULL DEFAULT '',
            last_refresh_error TEXT NOT NULL DEFAULT '',
            created_at TEXT NOT NULL DEFAULT CURRENT_TIMESTAMP,
            updated_at TEXT NOT NULL DEFAULT CURRENT_TIMESTAMP,
            UNIQUE (source_key, entity_type, external_id),
            FOREIGN KEY (media_title_id) REFERENCES obj_media_title(id) ON DELETE CASCADE,
            FOREIGN KEY (edition_id) REFERENCES obj_media_book_edition(id) ON DELETE SET NULL
        );

        CREATE TABLE IF NOT EXISTS obj_media_book_author (
            id INTEGER PRIMARY KEY AUTOINCREMENT,
            name TEXT NOT NULL,
            sort_name TEXT NOT NULL DEFAULT '',
            created_at TEXT NOT NULL DEFAULT CURRENT_TIMESTAMP,
            updated_at TEXT NOT NULL DEFAULT CURRENT_TIMESTAMP
        );

        CREATE TABLE IF NOT EXISTS n2n_media_book_work_author (
            id INTEGER PRIMARY KEY AUTOINCREMENT,
            media_title_id INTEGER NOT NULL,
            author_id INTEGER NOT NULL,
            role TEXT NOT NULL DEFAULT 'AUTHOR'
                CHECK (role IN ('AUTHOR','EDITOR','NARRATOR','TRANSLATOR','OTHER')),
            position INTEGER NOT NULL DEFAULT 0,
            created_at TEXT NOT NULL DEFAULT CURRENT_TIMESTAMP,
            updated_at TEXT NOT NULL DEFAULT CURRENT_TIMESTAMP,
            UNIQUE (media_title_id, author_id, role),
            FOREIGN KEY (media_title_id) REFERENCES obj_media_title(id) ON DELETE CASCADE,
            FOREIGN KEY (author_id) REFERENCES obj_media_book_author(id) ON DELETE CASCADE
        );

        CREATE TABLE IF NOT EXISTS obj_media_book_reader_state (
            id INTEGER PRIMARY KEY AUTOINCREMENT,
            media_library_entry_id INTEGER NOT NULL UNIQUE,
            preferred_edition_id INTEGER,
            ownership_status TEXT NOT NULL DEFAULT 'NONE'
                CHECK (ownership_status IN ('NONE','OWNED','BORROWED','WISHLIST')),
            preferred_format TEXT NOT NULL DEFAULT 'UNKNOWN'
                CHECK (preferred_format IN ('HARDCOVER','PAPERBACK','EBOOK','AUDIOBOOK','OTHER','UNKNOWN')),
            progress_unit TEXT NOT NULL DEFAULT 'PAGE'
                CHECK (progress_unit IN ('PAGE','PERCENT','MINUTE','CHAPTER')),
            progress_value REAL NOT NULL DEFAULT 0 CHECK (progress_value >= 0),
            progress_total_override REAL CHECK (
                progress_total_override IS NULL OR progress_total_override >= 0
            ),
            current_chapter TEXT NOT NULL DEFAULT '',
            reading_queue_position INTEGER UNIQUE,
            last_progress_at TEXT NOT NULL DEFAULT '',
            created_at TEXT NOT NULL DEFAULT CURRENT_TIMESTAMP,
            updated_at TEXT NOT NULL DEFAULT CURRENT_TIMESTAMP,
            FOREIGN KEY (media_library_entry_id)
                REFERENCES obj_media_library_entry(id) ON DELETE CASCADE,
            FOREIGN KEY (preferred_edition_id)
                REFERENCES obj_media_book_edition(id) ON DELETE SET NULL
        );

        CREATE TABLE IF NOT EXISTS obj_media_book_link (
            id INTEGER PRIMARY KEY AUTOINCREMENT,
            media_title_id INTEGER NOT NULL,
            edition_id INTEGER,
            source_key TEXT NOT NULL DEFAULT 'manual',
            link_type TEXT NOT NULL CHECK (link_type IN ('INFO','PREVIEW','READ','BORROW','BUY','OTHER')),
            url TEXT NOT NULL,
            region_code TEXT NOT NULL DEFAULT '',
            is_user_owned INTEGER NOT NULL DEFAULT 0,
            is_preferred INTEGER NOT NULL DEFAULT 0,
            refreshed_at TEXT NOT NULL DEFAULT '',
            created_at TEXT NOT NULL DEFAULT CURRENT_TIMESTAMP,
            updated_at TEXT NOT NULL DEFAULT CURRENT_TIMESTAMP,
            FOREIGN KEY (media_title_id) REFERENCES obj_media_title(id) ON DELETE CASCADE,
            FOREIGN KEY (edition_id) REFERENCES obj_media_book_edition(id) ON DELETE SET NULL
        );

        CREATE UNIQUE INDEX IF NOT EXISTS idx_media_book_link_preferred_user
            ON obj_media_book_link (media_title_id)
            WHERE is_user_owned = 1 AND is_preferred = 1;

        CREATE TABLE IF NOT EXISTS obj_media_book_series (
            id INTEGER PRIMARY KEY AUTOINCREMENT,
            name TEXT NOT NULL COLLATE NOCASE UNIQUE,
            created_at TEXT NOT NULL DEFAULT CURRENT_TIMESTAMP,
            updated_at TEXT NOT NULL DEFAULT CURRENT_TIMESTAMP
        );

        CREATE TABLE IF NOT EXISTS obj_media_book_series_member (
            id INTEGER PRIMARY KEY AUTOINCREMENT,
            series_id INTEGER NOT NULL,
            media_title_id INTEGER NOT NULL,
            position_text TEXT NOT NULL DEFAULT '',
            position_sort REAL,
            is_primary INTEGER NOT NULL DEFAULT 0,
            source_key TEXT NOT NULL DEFAULT 'manual',
            is_user_override INTEGER NOT NULL DEFAULT 0,
            created_at TEXT NOT NULL DEFAULT CURRENT_TIMESTAMP,
            updated_at TEXT NOT NULL DEFAULT CURRENT_TIMESTAMP,
            UNIQUE (series_id, media_title_id, source_key),
            FOREIGN KEY (series_id) REFERENCES obj_media_book_series(id) ON DELETE CASCADE,
            FOREIGN KEY (media_title_id) REFERENCES obj_media_title(id) ON DELETE CASCADE
        );

        CREATE INDEX IF NOT EXISTS idx_media_book_title_type
            ON obj_media_title (content_type, title COLLATE NOCASE);
        CREATE INDEX IF NOT EXISTS idx_media_book_author_name
            ON obj_media_book_author (name COLLATE NOCASE);
        CREATE INDEX IF NOT EXISTS idx_media_book_source_identity
            ON obj_media_book_source_record (source_key, entity_type, external_id);
        CREATE INDEX IF NOT EXISTS idx_media_book_reader_preferred
            ON obj_media_book_reader_state (preferred_edition_id);
        CREATE INDEX IF NOT EXISTS idx_media_book_reading_queue
            ON obj_media_book_reader_state (reading_queue_position);
        CREATE INDEX IF NOT EXISTS idx_media_book_progress_timestamp
            ON obj_media_book_reader_state (last_progress_at);
        CREATE INDEX IF NOT EXISTS idx_media_book_series_order
            ON obj_media_book_series_member (series_id, position_sort, position_text);
        CREATE INDEX IF NOT EXISTS idx_media_book_series_title
            ON obj_media_book_series_member (media_title_id);
        CREATE INDEX IF NOT EXISTS idx_media_book_link_lookup
            ON obj_media_book_link (media_title_id, link_type);
"#;

/// A library with three manual books (entries 1, 2, 3) and one movie
/// (entry 4).
fn database() -> AppDatabase {
    let connection = rusqlite::Connection::open_in_memory().unwrap();
    connection.execute_batch(SCHEMA).unwrap();
    connection
        .execute_batch(
            "INSERT INTO obj_media_title (id, source_key, content_type, title) VALUES (1, 'manual', 'BOOK', 'First queue book');
             INSERT INTO obj_media_title (id, source_key, content_type, title) VALUES (2, 'manual', 'BOOK', 'Second queue book');
             INSERT INTO obj_media_title (id, source_key, content_type, title) VALUES (3, 'manual', 'BOOK', 'Third queue book');
             INSERT INTO obj_media_title (id, source_key, content_type, title) VALUES (4, 'tmdb', 'MOVIE', 'A movie');
             INSERT INTO obj_media_library_entry (id, media_title_id) VALUES (1, 1);
             INSERT INTO obj_media_library_entry (id, media_title_id) VALUES (2, 2);
             INSERT INTO obj_media_library_entry (id, media_title_id) VALUES (3, 3);
             INSERT INTO obj_media_library_entry (id, media_title_id) VALUES (4, 4);
             INSERT INTO obj_media_book_reader_state (media_library_entry_id) VALUES (1);
             INSERT INTO obj_media_book_reader_state (media_library_entry_id) VALUES (2);
             INSERT INTO obj_media_book_reader_state (media_library_entry_id) VALUES (3);",
        )
        .unwrap();
    AppDatabase::new(connection)
}

fn read_next_position(db: &AppDatabase, entry_id: i64) -> Option<i64> {
    db.connection()
        .query_row(
            "SELECT reading_queue_position FROM obj_media_book_reader_state WHERE media_library_entry_id=?1",
            [entry_id],
            |row| row.get(0),
        )
        .unwrap()
}

fn count(db: &AppDatabase, sql: &str) -> i64 {
    db.connection().query_row(sql, [], |row| row.get(0)).unwrap()
}

fn edition_input(title: &str) -> ManualBookEditionInput {
    ManualBookEditionInput {
        title: title.to_string(),
        subtitle: String::new(),
        format: BookFormat::Paperback,
        isbn_10: String::new(),
        isbn_13: String::new(),
        publisher: String::new(),
        published_date: String::new(),
        language: String::new(),
        page_count: None,
        audio_duration_minutes: None,
        cover_url: String::new(),
    }
}

fn link_input(url: &str, link_type: &str, preferred: bool) -> BookLinkInput {
    BookLinkInput {
        edition_id: None,
        link_type: link_type.to_string(),
        url: url.to_string(),
        region_code: String::new(),
        is_preferred: preferred,
    }
}

#[test]
fn read_next_move_and_remove_keep_positions_unique_and_dense() {
    let db = database();
    let repository = BookRepository::new(&db);
    let (first, second, third) = (1, 2, 3);
    for entry_id in [first, second, third] {
        repository.add_to_read_next(entry_id).expect("queue insertion");
    }
    repository.move_read_next(third, "UP").expect("queue move");
    repository.remove_from_read_next(first).expect("queue removal");

    let mut positions = [second, third]
        .into_iter()
        .map(|entry_id| read_next_position(&db, entry_id).expect("queue position"))
        .collect::<Vec<_>>();
    positions.sort_unstable();
    assert_eq!(positions, vec![1, 2]);
    assert_eq!(read_next_position(&db, first), None);
}

#[test]
fn book_links_reject_unsafe_urls() {
    let db = database();
    let repository = BookRepository::new(&db);
    let error = repository
        .create_link(
            1,
            &BookLinkInput {
                edition_id: None,
                link_type: "READ".to_string(),
                url: "file:///secret.epub".to_string(),
                region_code: String::new(),
                is_preferred: false,
            },
        )
        .expect_err("unsafe URL should fail");
    assert!(error.message.contains("http"));
}

#[test]
fn read_next_queue_moves_swap_neighbours_and_refuse_unknown_directions() {
    let db = database();
    let repository = BookRepository::new(&db);
    for entry_id in [1, 2, 3] {
        repository.add_to_read_next(entry_id).unwrap();
    }
    // Adding twice keeps the place.
    repository.add_to_read_next(2).unwrap();
    assert_eq!(read_next_position(&db, 2), Some(2));
    repository.move_read_next(1, " down ").unwrap();
    assert_eq!(read_next_position(&db, 1), Some(2));
    assert_eq!(read_next_position(&db, 2), Some(1));
    // Moving the top book up changes nothing.
    repository.move_read_next(2, "UP").unwrap();
    assert_eq!(read_next_position(&db, 2), Some(1));
    let error = repository.move_read_next(1, "SIDEWAYS").unwrap_err();
    assert_eq!(error.kind, MediaErrorKind::Validation);
    assert_eq!(error.message, "Read Next direction must be UP or DOWN.");
    repository.remove_from_read_next(3).unwrap();
    assert_eq!(read_next_position(&db, 3), None);
    // A book outside the queue has no position to read.
    let error = repository.move_read_next(3, "UP").unwrap_err();
    assert_eq!(error.kind, MediaErrorKind::Database);
    let error = repository.move_read_next(99, "UP").unwrap_err();
    assert_eq!(error.message, "This book is not in Read Next.");
    let error = repository.add_to_read_next(99).unwrap_err();
    assert_eq!(error.kind, MediaErrorKind::NotFound);
    assert_eq!(error.message, "Book library entry was not found.");
}

#[test]
fn read_next_targets() {
    assert_eq!(read_next_target(3, "up").unwrap(), Some(2));
    assert_eq!(read_next_target(3, " DOWN").unwrap(), Some(4));
    assert_eq!(read_next_target(i64::MAX, "DOWN").unwrap(), None);
    assert_eq!(
        read_next_target(3, "left").unwrap_err().message,
        "Read Next direction must be UP or DOWN."
    );
}

#[test]
fn reader_state_is_written_for_books_only() {
    let db = database();
    let repository = BookRepository::new(&db);
    repository
        .update_reader_state(
            2,
            &UpdateBookReaderStateInput {
                ownership_status: BookOwnershipStatus::Owned,
                preferred_format: BookFormat::Ebook,
            },
        )
        .unwrap();
    let (ownership, format): (String, String) = db
        .connection()
        .query_row(
            "SELECT ownership_status, preferred_format FROM obj_media_book_reader_state WHERE media_library_entry_id=2",
            [],
            |row| Ok((row.get(0)?, row.get(1)?)),
        )
        .unwrap();
    assert_eq!((ownership.as_str(), format.as_str()), ("OWNED", "EBOOK"));
    let error = repository
        .update_reader_state(
            4,
            &UpdateBookReaderStateInput {
                ownership_status: BookOwnershipStatus::NotOwned,
                preferred_format: BookFormat::Unknown,
            },
        )
        .unwrap_err();
    assert_eq!(error.message, "Book library entry was not found.");
}

#[test]
fn manual_editions_are_trimmed_and_checked() {
    let mut input = edition_input("  Dune  ");
    input.subtitle = " Deluxe ".to_string();
    input.format = BookFormat::Ebook;
    input.isbn_13 = "978-0-306-40615-7".to_string();
    input.isbn_10 = " 0-306-40615-2 ".to_string();
    input.publisher = " Ace ".to_string();
    input.language = " en ".to_string();
    input.page_count = Some(412);
    input.cover_url = " https://covers.example/dune.jpg ".to_string();
    let edition = normalized_manual_edition(&input).unwrap();
    assert_eq!(edition.title, "Dune");
    assert_eq!(edition.subtitle, "Deluxe");
    assert_eq!(edition.isbn_13, "9780306406157");
    assert_eq!(edition.isbn_10, "0306406152");
    assert_eq!(edition.publisher, "Ace");
    assert_eq!(edition.language, "en");
    assert_eq!(edition.page_count, Some(412));
    assert_eq!(edition.cover_url, "https://covers.example/dune.jpg");
    assert!(edition.is_ebook);
    assert_eq!(edition.access_viewability, "");

    assert_eq!(
        normalized_manual_edition(&edition_input("   ")).unwrap_err().message,
        "An edition title is required."
    );
    let mut bad = edition_input("Dune");
    bad.audio_duration_minutes = Some(0);
    assert_eq!(
        normalized_manual_edition(&bad).unwrap_err().message,
        "Page count and audio duration must be positive."
    );
    let mut bad = edition_input("Dune");
    bad.isbn_10 = "123".to_string();
    assert_eq!(normalized_manual_edition(&bad).unwrap_err().message, "ISBN-10 is invalid.");
    let mut bad = edition_input("Dune");
    bad.isbn_13 = "0-306-40615-2".to_string();
    assert_eq!(normalized_manual_edition(&bad).unwrap_err().message, "Expected an ISBN-13.");
    let mut bad = edition_input("Dune");
    bad.cover_url = "ftp://covers.example/dune.jpg".to_string();
    assert_eq!(
        normalized_manual_edition(&bad).unwrap_err().kind,
        MediaErrorKind::Validation
    );
    let plain = normalized_manual_edition(&edition_input("Dune")).unwrap();
    assert!(!plain.is_ebook);
    assert_eq!(plain.cover_url, "");
}

#[test]
fn manual_editions_are_created_changed_and_deleted() {
    let db = database();
    let repository = BookRepository::new(&db);
    let mut input = edition_input(" Paperback edition ");
    input.page_count = Some(300);
    repository.create_edition(1, &input).unwrap();
    let (edition_id, title, pages): (i64, String, i64) = db
        .connection()
        .query_row(
            "SELECT id, title, page_count FROM obj_media_book_edition WHERE media_title_id=1",
            [],
            |row| Ok((row.get(0)?, row.get(1)?, row.get(2)?)),
        )
        .unwrap();
    assert_eq!((title.as_str(), pages), ("Paperback edition", 300));
    let external: String = db
        .connection()
        .query_row(
            "SELECT external_id FROM obj_media_book_source_record WHERE edition_id=?1",
            [edition_id],
            |row| row.get(0),
        )
        .unwrap();
    assert_eq!(external, format!("local-edition-{edition_id}"));

    input.page_count = None;
    input.title = "Renamed".to_string();
    repository.update_edition(1, edition_id, &input).unwrap();
    let pages: Option<i64> = db
        .connection()
        .query_row("SELECT page_count FROM obj_media_book_edition WHERE id=?1", [edition_id], |row| row.get(0))
        .unwrap();
    assert_eq!(pages, None);
    assert_eq!(
        repository.update_edition(1, 999, &input).unwrap_err().message,
        "Book edition was not found."
    );
    assert_eq!(
        repository.create_edition(4, &input).unwrap_err().message,
        "Book library entry was not found."
    );
    assert_eq!(
        repository.create_edition(1, &edition_input("")).unwrap_err().message,
        "An edition title is required."
    );

    db.connection()
        .execute(
            "UPDATE obj_media_book_reader_state SET preferred_edition_id=?1 WHERE media_library_entry_id=1",
            [edition_id],
        )
        .unwrap();
    assert_eq!(
        repository.delete_edition(1, edition_id).unwrap_err().message,
        "Choose another preferred edition before deleting this edition."
    );
    db.connection()
        .execute("UPDATE obj_media_book_reader_state SET preferred_edition_id=NULL", [])
        .unwrap();
    repository.delete_edition(1, edition_id).unwrap();
    assert_eq!(count(&db, "SELECT COUNT(*) FROM obj_media_book_edition"), 0);
    assert_eq!(
        repository.delete_edition(1, edition_id).unwrap_err().message,
        "Book edition was not found."
    );
}

#[test]
fn provider_editions_cannot_be_edited_or_deleted() {
    let db = database();
    db.connection()
        .execute_batch(
            "INSERT INTO obj_media_book_edition (id, media_title_id, title) VALUES (7, 2, 'Provider');
             INSERT INTO obj_media_book_source_record (media_title_id, edition_id, source_key, entity_type, external_id)
                 VALUES (2, 7, 'google_books', 'EDITION', 'g-7');",
        )
        .unwrap();
    let repository = BookRepository::new(&db);
    assert_eq!(
        repository.update_edition(2, 7, &edition_input("Mine")).unwrap_err().message,
        "Provider editions cannot be edited manually."
    );
    assert_eq!(
        repository.delete_edition(2, 7).unwrap_err().message,
        "Provider editions are retained for refresh history and cannot be deleted manually."
    );
}

#[test]
fn user_links_are_created_preferred_changed_and_deleted() {
    let db = database();
    let repository = BookRepository::new(&db);
    let mut input = link_input(" https://library.example/borrow ", "borrow", true);
    input.region_code = " ca ".to_string();
    repository.create_link(1, &input).unwrap();
    repository.create_link(1, &link_input("https://shop.example/buy", "BUY", true)).unwrap();
    let rows: Vec<(i64, String, String, String, i64)> = {
        let connection = db.connection();
        let mut statement = connection
            .prepare("SELECT id, link_type, url, region_code, is_preferred FROM obj_media_book_link ORDER BY id")
            .unwrap();
        let rows = statement
            .query_map([], |row| Ok((row.get(0)?, row.get(1)?, row.get(2)?, row.get(3)?, row.get(4)?)))
            .unwrap()
            .map(|r| r.unwrap())
            .collect();
        rows
    };
    assert_eq!(rows.len(), 2);
    assert_eq!(
        (rows[0].1.as_str(), rows[0].2.as_str(), rows[0].3.as_str(), rows[0].4),
        ("BORROW", "https://library.example/borrow", "CA", 0)
    );
    assert_eq!(rows[1].4, 1);
    let (first, second) = (rows[0].0, rows[1].0);
    repository.set_preferred_link(1, first).unwrap();
    assert_eq!(count(&db, "SELECT id FROM obj_media_book_link WHERE is_preferred=1"), first);
    repository
        .update_link(1, second, &link_input("https://shop.example/other", "other", false))
        .unwrap();
    let url: String = db
        .connection()
        .query_row("SELECT url FROM obj_media_book_link WHERE id=?1", [second], |row| row.get(0))
        .unwrap();
    assert_eq!(url, "https://shop.example/other");
    assert_eq!(
        repository
            .update_link(2, second, &link_input("https://shop.example/x", "BUY", false))
            .unwrap_err()
            .message,
        "User-owned book link was not found."
    );
    assert_eq!(
        repository.create_link(1, &link_input("https://x.example", "STREAM", false)).unwrap_err().message,
        "Book link type must be INFO, PREVIEW, READ, BORROW, BUY, or OTHER."
    );
    let mut foreign = link_input("https://x.example", "INFO", false);
    foreign.edition_id = Some(12345);
    assert_eq!(
        repository.create_link(1, &foreign).unwrap_err().message,
        "The selected edition does not belong to this book."
    );
    repository.delete_link(1, second).unwrap();
    assert_eq!(
        repository.delete_link(1, second).unwrap_err().message,
        "User-owned book link was not found."
    );
    assert_eq!(
        repository.set_preferred_link(1, second).unwrap_err().message,
        "User-owned book link was not found."
    );
    assert_eq!(count(&db, "SELECT COUNT(*) FROM obj_media_book_link"), 1);
}

#[test]
fn provider_failures_and_series_overrides_touch_their_rows_only() {
    let db = database();
    db.connection()
        .execute_batch(
            "INSERT INTO obj_media_book_source_record (media_title_id, source_key, entity_type, external_id, last_refresh_status)
                 VALUES (1, 'google_books', 'EDITION', 'g-1', 'SUCCESS');
             INSERT INTO obj_media_book_source_record (media_title_id, source_key, entity_type, external_id, last_refresh_status)
                 VALUES (1, 'open_library', 'WORK', 'OL1W', 'SUCCESS');
             INSERT INTO obj_media_book_series (id, name) VALUES (1, 'Saga');
             INSERT INTO obj_media_book_series_member (id, series_id, media_title_id, is_user_override) VALUES (5, 1, 1, 1);
             INSERT INTO obj_media_book_series_member (id, series_id, media_title_id, source_key, is_user_override) VALUES (6, 1, 1, 'open_library', 0);",
        )
        .unwrap();
    let repository = BookRepository::new(&db);
    repository.mark_provider_failure(1, "google_books", "timed out").unwrap();
    assert_eq!(
        count(&db, "SELECT COUNT(*) FROM obj_media_book_source_record WHERE last_refresh_status='FAILED' AND last_refresh_error='timed out' AND source_key='google_books'"),
        1
    );
    assert_eq!(
        count(&db, "SELECT COUNT(*) FROM obj_media_book_source_record WHERE last_refresh_status='SUCCESS'"),
        1
    );
    repository.clear_series_override(1, 6).unwrap();
    repository.clear_series_override(1, 5).unwrap();
    assert_eq!(count(&db, "SELECT id FROM obj_media_book_series_member"), 6);
    assert_eq!(
        repository.mark_provider_failure(4, "google_books", "x").unwrap_err().message,
        "Book library entry was not found."
    );
}

#[test]
fn manual_edition_sources_are_named_by_edition_id() {
    assert_eq!(local_edition_external_id(42), "local-edition-42");
    assert_eq!(local_edition_external_id(-3), "local-edition--3");
}

#[test]
fn watch_next_column_remains_null_for_books() {
    let db = database();
    let repository = BookRepository::new(&db);
    repository.add_to_read_next(1).expect("read next should save");
    let watch_next: Option<i64> = db
        .connection()
        .query_row(
            "SELECT queue_position FROM obj_media_library_entry WHERE id=?1",
            [1],
            |row| row.get(0),
        )
        .expect("entry");
    assert_eq!(watch_next, None);
    assert_eq!(read_next_position(&db, 1), Some(1));
}

#[test]
fn provider_failure_keeps_cached_payload_and_other_sources_untouched() {
    let db = database();
    db.connection()
        .execute_batch(
            "INSERT INTO obj_media_book_source_record (media_title_id, source_key, entity_type, external_id, metadata_json, last_refresh_status)
                 VALUES (1, 'google_books', 'EDITION', 'google-volume-1', '{\"version\":1}', 'SUCCESS');
             INSERT INTO obj_media_book_source_record (media_title_id, source_key, entity_type, external_id, metadata_json, last_refresh_status)
                 VALUES (1, 'open_library', 'WORK', 'OL1W', '{}', 'SUCCESS');",
        )
        .unwrap();
    let repository = BookRepository::new(&db);
    repository
        .mark_provider_failure(1, "google_books", "temporary outage")
        .expect("failure state");
    let (payload, status, error): (String, String, String) = db
        .connection()
        .query_row(
            "SELECT metadata_json,last_refresh_status,last_refresh_error FROM obj_media_book_source_record WHERE source_key='google_books'",
            [],
            |row| Ok((row.get(0)?, row.get(1)?, row.get(2)?)),
        )
        .expect("source record");
    assert_eq!(payload, "{\"version\":1}");
    assert_eq!(status, "FAILED");
    assert_eq!(error, "temporary outage");
    let other: String = db
        .connection()
        .query_row(
            "SELECT last_refresh_status FROM obj_media_book_source_record WHERE source_key='open_library'",
            [],
            |row| row.get(0),
        )
        .unwrap();
    assert_eq!(other, "SUCCESS");
}
