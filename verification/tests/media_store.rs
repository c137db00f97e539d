use overlay_forge::book_service::{isbn_lookup_keys, BookCatalogService, BookLibraryService, BookRepository};
use overlay_forge::database::AppDatabase;
use overlay_forge::media::{MediaErrorKind, MediaStreamingLinkInput, UpdateMediaSettingsInput};
use overlay_forge::media_repository::{
    deletion_outcome, load_seasons, streaming_target, summary_progress, MediaRepository,
};
use overlay_forge::media::{MediaContentType, MediaLibraryFilter, MediaLibraryStatus};
use overlay_forge::media_query::{library_query, order_terms_chars};
use overlay_forge::database::SqlParam;
use overlay_forge::media_service::{
    tmdb_refresh_identity, validate_settings, MediaAvailabilityService, MediaCatalogService,
    MediaLibraryService,
};

const SCHEMA: &str = r#"
        PRAGMA foreign_keys = ON;

        CREATE TABLE IF NOT EXISTS obj_media_title (
            id INTEGER PRIMARY KEY AUTOINCREMENT,
            source_key TEXT NOT NULL,
            external_id INTEGER,
            external_media_type TEXT,
            content_type TEXT NOT NULL CHECK (content_type IN ('MOVIE', 'SERIES', 'BOOK')),
            title TEXT NOT NULL,
            original_title TEXT NOT NULL DEFAULT '',
            overview TEXT NOT NULL DEFAULT '',
            original_language TEXT NOT NULL DEFAULT '',
            release_date TEXT NOT NULL DEFAULT '',
            first_air_date TEXT NOT NULL DEFAULT '',
            last_air_date TEXT NOT NULL DEFAULT '',
            runtime_minutes INTEGER,
            episode_runtime_minutes INTEGER,
            external_status TEXT NOT NULL DEFAULT '',
            series_type TEXT NOT NULL DEFAULT '',
            poster_path TEXT NOT NULL DEFAULT '',
            backdrop_path TEXT NOT NULL DEFAULT '',
            homepage_url TEXT NOT NULL DEFAULT '',
            total_seasons INTEGER,
            total_episodes INTEGER,
            metadata_json TEXT NOT NULL DEFAULT '{}',
            metadata_refreshed_at TEXT NOT NULL DEFAULT '',
            created_at TEXT NOT NULL DEFAULT CURRENT_TIMESTAMP,
            updated_at TEXT NOT NULL DEFAULT CURRENT_TIMESTAMP,
            UNIQUE (source_key, external_media_type, external_id)
        );

        CREATE TABLE IF NOT EXISTS obj_media_library_entry (
            id INTEGER PRIMARY KEY AUTOINCREMENT,
            media_title_id INTEGER NOT NULL UNIQUE,
            library_status TEXT NOT NULL DEFAULT 'PLANNED'
                CHECK (library_status IN ('PLANNED', 'WATCHING', 'COMPLETED', 'ON_HOLD', 'DROPPED')),
            is_favorite INTEGER NOT NULL DEFAULT 0,
            personal_rating REAL CHECK (
                personal_rating IS NULL OR (personal_rating >= 1.0 AND personal_rating <= 10.0)
            ),
            notes TEXT NOT NULL DEFAULT '',
            priority INTEGER NOT NULL DEFAULT 0,
            queue_position INTEGER UNIQUE,
            new_episodes_count INTEGER NOT NULL DEFAULT 0,
            added_at TEXT NOT NULL DEFAULT (datetime('now', 'localtime')),
            started_at TEXT NOT NULL DEFAULT '',
            completed_at TEXT NOT NULL DEFAULT '',
            last_watched_at TEXT NOT NULL DEFAULT '',
            created_at TEXT NOT NULL DEFAULT CURRENT_TIMESTAMP,
            updated_at TEXT NOT NULL DEFAULT CURRENT_TIMESTAMP,
            FOREIGN KEY (media_title_id) REFERENCES obj_media_title(id) ON DELETE CASCADE
        );

        CREATE TABLE IF NOT EXISTS obj_media_season (
            id INTEGER PRIMARY KEY AUTOINCREMENT,
            media_title_id INTEGER NOT NULL,
            external_id INTEGER,
            season_number INTEGER NOT NULL,
            name TEXT NOT NULL DEFAULT '',
            overview TEXT NOT NULL DEFAULT '',
            air_date TEXT NOT NULL DEFAULT '',
            poster_path TEXT NOT NULL DEFAULT '',
            episode_count INTEGER NOT NULL DEFAULT 0,
            is_present_in_source INTEGER NOT NULL DEFAULT 1,
            metadata_json TEXT NOT NULL DEFAULT '{}',
            metadata_refreshed_at TEXT NOT NULL DEFAULT '',
            created_at TEXT NOT NULL DEFAULT CURRENT_TIMESTAMP,
            updated_at TEXT NOT NULL DEFAULT CURRENT_TIMESTAMP,
            UNIQUE (media_title_id, season_number),
            FOREIGN KEY (media_title_id) REFERENCES obj_media_title(id) ON DELETE CASCADE
        );

        CREATE TABLE IF NOT EXISTS obj_media_episode (
            id INTEGER PRIMARY KEY AUTOINCREMENT,
            media_title_id INTEGER NOT NULL,
            season_id INTEGER NOT NULL,
            external_id INTEGER,
            season_number INTEGER NOT NULL,
            episode_number INTEGER NOT NULL,
            name TEXT NOT NULL DEFAULT '',
            overview TEXT NOT NULL DEFAULT '',
            air_date TEXT NOT NULL DEFAULT '',
            runtime_minutes INTEGER,
            still_path TEXT NOT NULL DEFAULT '',
            is_present_in_source INTEGER NOT NULL DEFAULT 1,
            metadata_json TEXT NOT NULL DEFAULT '{}',
            metadata_refreshed_at TEXT NOT NULL DEFAULT '',
            created_at TEXT NOT NULL DEFAULT CURRENT_TIMESTAMP,
            updated_at TEXT NOT NULL DEFAULT CURRENT_TIMESTAMP,
            UNIQUE (media_title_id, season_number, episode_number),
            FOREIGN KEY (media_title_id) REFERENCES obj_media_title(id) ON DELETE CASCADE,
            FOREIGN KEY (season_id) REFERENCES obj_media_season(id) ON DELETE CASCADE
        );

        CREATE UNIQUE INDEX IF NOT EXISTS idx_media_episode_external_identity
            ON obj_media_episode (media_title_id, external_id)
            WHERE external_id IS NOT NULL;

        CREATE TABLE IF NOT EXISTS obj_media_episode_progress (
            id INTEGER PRIMARY KEY AUTOINCREMENT,
            episode_id INTEGER NOT NULL UNIQUE,
            is_watched INTEGER NOT NULL DEFAULT 0,
            watched_at TEXT NOT NULL DEFAULT '',
            notes TEXT NOT NULL DEFAULT '',
            created_at TEXT NOT NULL DEFAULT CURRENT_TIMESTAMP,
            updated_at TEXT NOT NULL DEFAULT CURRENT_TIMESTAMP,
            FOREIGN KEY (episode_id) REFERENCES obj_media_episode(id) ON DELETE CASCADE
        );

        CREATE TABLE IF NOT EXISTS obj_media_provider_snapshot (
            id INTEGER PRIMARY KEY AUTOINCREMENT,
            media_title_id INTEGER NOT NULL,
            region_code TEXT NOT NULL,
            source_key TEXT NOT NULL DEFAULT 'tmdb',
            source_link_url TEXT NOT NULL DEFAULT '',
            refreshed_at TEXT NOT NULL DEFAULT '',
            last_refresh_status TEXT NOT NULL DEFAULT '',
            last_refresh_error TEXT NOT NULL DEFAULT '',
            created_at TEXT NOT NULL DEFAULT CURRENT_TIMESTAMP,
            updated_at TEXT NOT NULL DEFAULT CURRENT_TIMESTAMP,
            UNIQUE (media_title_id, region_code),
            FOREIGN KEY (media_title_id) REFERENCES obj_media_title(id) ON DELETE CASCADE
        );

        CREATE TABLE IF NOT EXISTS obj_media_provider_availability (
            id INTEGER PRIMARY KEY AUTOINCREMENT,
            snapshot_id INTEGER NOT NULL,
            provider_external_id INTEGER NOT NULL,
            provider_name TEXT NOT NULL,
            provider_logo_path TEXT NOT NULL DEFAULT '',
            monetization_type TEXT NOT NULL
                CHECK (monetization_type IN ('FLATRATE', 'FREE', 'ADS', 'RENT', 'BUY')),
            display_priority INTEGER NOT NULL DEFAULT 0,
            created_at TEXT NOT NULL DEFAULT CURRENT_TIMESTAMP,
            updated_at TEXT NOT NULL DEFAULT CURRENT_TIMESTAMP,
            UNIQUE (snapshot_id, provider_external_id, monetization_type),
            FOREIGN KEY (snapshot_id) REFERENCES obj_media_provider_snapshot(id) ON DELETE CASCADE
        );

        CREATE TABLE IF NOT EXISTS obj_media_streaming_link (
            id INTEGER PRIMARY KEY AUTOINCREMENT,
            media_library_entry_id INTEGER NOT NULL,
            provider_name TEXT NOT NULL DEFAULT '',
            url TEXT NOT NULL,
            link_type TEXT NOT NULL DEFAULT 'STREAM'
                CHECK (link_type IN ('STREAM', 'RENT', 'BUY', 'OTHER')),
            is_preferred INTEGER NOT NULL DEFAULT 0,
            notes TEXT NOT NULL DEFAULT '',
            created_at TEXT NOT NULL DEFAULT CURRENT_TIMESTAMP,
            updated_at TEXT NOT NULL DEFAULT CURRENT_TIMESTAMP,
            FOREIGN KEY (media_library_entry_id)
                REFERENCES obj_media_library_entry(id) ON DELETE CASCADE
        );

        CREATE UNIQUE INDEX IF NOT EXISTS idx_media_streaming_link_preferred
            ON obj_media_streaming_link (media_library_entry_id)
            WHERE is_preferred = 1;

        CREATE TABLE IF NOT EXISTS obj_media_tag (
            id INTEGER PRIMARY KEY AUTOINCREMENT,
            name TEXT NOT NULL COLLATE NOCASE UNIQUE,
            created_at TEXT NOT NULL DEFAULT CURRENT_TIMESTAMP,
            updated_at TEXT NOT NULL DEFAULT CURRENT_TIMESTAMP
        );

        CREATE TABLE IF NOT EXISTS n2n_media_library_entry_tag (
            id INTEGER PRIMARY KEY AUTOINCREMENT,
            media_library_entry_id INTEGER NOT NULL,
            media_tag_id INTEGER NOT NULL,
            created_at TEXT NOT NULL DEFAULT CURRENT_TIMESTAMP,
            UNIQUE (media_library_entry_id, media_tag_id),
            FOREIGN KEY (media_library_entry_id)
                REFERENCES obj_media_library_entry(id) ON DELETE CASCADE,
            FOREIGN KEY (media_tag_id) REFERENCES obj_media_tag(id) ON DELETE CASCADE
        );

        CREATE TABLE IF NOT EXISTS obj_media_setting (
            id INTEGER PRIMARY KEY CHECK (id = 1),
            region_code TEXT NOT NULL DEFAULT 'CA',
            metadata_language TEXT NOT NULL DEFAULT 'en-CA',
            include_specials_in_completion INTEGER NOT NULL DEFAULT 0,
            created_at TEXT NOT NULL DEFAULT CURRENT_TIMESTAMP,
            updated_at TEXT NOT NULL DEFAULT CURRENT_TIMESTAMP
        );

        INSERT OR IGNORE INTO obj_media_setting (
            id, region_code, metadata_language, include_specials_in_completion
        ) VALUES (1, 'CA', 'en-CA', 0);

        CREATE INDEX IF NOT EXISTS idx_media_title_search ON obj_media_title (title COLLATE NOCASE);
        CREATE INDEX IF NOT EXISTS idx_media_title_source ON obj_media_title (
            source_key, external_media_type, external_id
        );
        CREATE INDEX IF NOT EXISTS idx_media_library_status ON obj_media_library_entry (library_status);
        CREATE INDEX IF NOT EXISTS idx_media_library_favorite ON obj_media_library_entry (is_favorite);
        CREATE INDEX IF NOT EXISTS idx_media_library_queue ON obj_media_library_entry (queue_position);
        CREATE INDEX IF NOT EXISTS idx_media_library_added ON obj_media_library_entry (added_at);
        CREATE INDEX IF NOT EXISTS idx_media_library_watched ON obj_media_library_entry (last_watched_at);
        CREATE INDEX IF NOT EXISTS idx_media_season_title ON obj_media_season (
            media_title_id, season_number
        );
        CREATE INDEX IF NOT EXISTS idx_media_episode_season ON obj_media_episode (
            season_id, episode_number
        );
        CREATE INDEX IF NOT EXISTS idx_media_episode_title_order ON obj_media_episode (
            media_title_id, season_number, episode_number
        );
        CREATE INDEX IF NOT EXISTS idx_media_episode_progress_watched
            ON obj_media_episode_progress (is_watched);
        CREATE INDEX IF NOT EXISTS idx_media_provider_name
            ON obj_media_provider_availability (provider_name COLLATE NOCASE);
        CREATE INDEX IF NOT EXISTS idx_media_tag_mapping_entry
            ON n2n_media_library_entry_tag (media_library_entry_id);
        CREATE INDEX IF NOT EXISTS idx_media_tag_mapping_tag
            ON n2n_media_library_entry_tag (media_tag_id);
        
        CREATE TABLE obj_media_book_edition (
            id INTEGER PRIMARY KEY AUTOINCREMENT,
            media_title_id INTEGER NOT NULL,
            isbn_10 TEXT NOT NULL DEFAULT '',
            isbn_13 TEXT NOT NULL DEFAULT ''
        );
        CREATE TABLE obj_media_book_source_record (
            id INTEGER PRIMARY KEY AUTOINCREMENT,
            media_title_id INTEGER NOT NULL,
            source_key TEXT NOT NULL,
            entity_type TEXT NOT NULL,
            external_id TEXT NOT NULL
        );
        CREATE TABLE obj_media_book_link (
            id INTEGER PRIMARY KEY AUTOINCREMENT,
            media_title_id INTEGER NOT NULL,
            url TEXT NOT NULL
        );
"#;

fn database() -> AppDatabase {
    let connection = rusqlite::Connection::open_in_memory().unwrap();
    connection.execute_batch(SCHEMA).unwrap();
    connection
        .execute_batch(
            "INSERT INTO obj_media_title (id, source_key, external_id, external_media_type, content_type, title) VALUES (1, 'tmdb', 603, 'movie', 'MOVIE', 'The Matrix');
             INSERT INTO obj_media_title (id, source_key, content_type, title) VALUES (2, 'manual', 'SERIES', 'Home videos');
             INSERT INTO obj_media_title (id, source_key, content_type, title) VALUES (3, 'book', 'BOOK', 'Dune');
             INSERT INTO obj_media_library_entry (id, media_title_id, queue_position) VALUES (10, 1, 5);
             INSERT INTO obj_media_library_entry (id, media_title_id, queue_position) VALUES (11, 2, 9);
             INSERT INTO obj_media_library_entry (id, media_title_id) VALUES (12, 3);
             INSERT INTO obj_media_book_edition (media_title_id, isbn_13) VALUES (3, '9780306406157');
             INSERT INTO obj_media_book_source_record (media_title_id, source_key, entity_type, external_id) VALUES (3, 'open_library', 'EDITION', 'OL1M');
             INSERT INTO obj_media_book_link (id, media_title_id, url) VALUES (40, 3, ' https://openlibrary.org/books/OL1M ');
             INSERT INTO obj_media_book_link (id, media_title_id, url) VALUES (41, 3, 'file:///etc/passwd');",
        )
        .unwrap();
    AppDatabase::new(connection)
}

fn link(url: &str, link_type: &str, preferred: bool) -> MediaStreamingLinkInput {
    MediaStreamingLinkInput {
        provider_name: " Netflix ".to_string(),
        url: url.to_string(),
        link_type: link_type.to_string(),
        is_preferred: preferred,
        notes: String::new(),
    }
}

#[test]
fn settings_and_source_identities_are_read() {
    let db = database();
    let repository = MediaRepository::new(&db);
    let settings = repository.get_settings().unwrap();
    assert_eq!(settings.region_code, "CA");
    assert!(!settings.include_specials_in_completion);
    let (source, id, kind) = repository.source_identity_for_entry(10).unwrap();
    assert_eq!((source.as_str(), id, kind.as_deref()), ("tmdb", Some(603), Some("movie")));
    let missing = repository.source_identity_for_entry(99).unwrap_err();
    assert_eq!(missing.kind, MediaErrorKind::NotFound);
    let catalog = MediaCatalogService::new(&db);
    assert_eq!(catalog.refresh_identity(10).unwrap(), (603, "movie".to_string()));
    assert_eq!(
        catalog.refresh_identity(11).unwrap_err().message,
        "Manual entries do not have TMDB metadata to refresh."
    );
}

#[test]
fn tags_are_created_once_and_deleted() {
    let db = database();
    let library = MediaLibraryService::new(&db);
    assert_eq!(library.create_tag("   ").unwrap_err().message, "Tag name is required.");
    let first = library.create_tag("  Sci-Fi ").unwrap();
    let again = library.create_tag("sci-fi").unwrap();
    assert_eq!(first.name, "Sci-Fi");
    assert_eq!(first.id, again.id);
    library.create_tag("Anime").unwrap();
    let names: Vec<String> = library.list_tags().unwrap().into_iter().map(|t| t.name).collect();
    assert_eq!(names, vec!["Anime".to_string(), "Sci-Fi".to_string()]);
    library.delete_tag(first.id).unwrap();
    assert_eq!(library.delete_tag(first.id).unwrap_err().message, "Media tag was not found.");
    assert_eq!(library.get_settings().unwrap().metadata_language, "en-CA");
}

#[test]
fn deleting_an_entry_renumbers_the_queue() {
    let db = database();
    let library = MediaLibraryService::new(&db);
    library.delete(10).unwrap();
    let position: i64 = db
        .connection
        .query_row("SELECT queue_position FROM obj_media_library_entry WHERE id = 11", [], |r| r.get(0))
        .unwrap();
    assert_eq!(position, 1);
    assert_eq!(library.delete(10).unwrap_err().message, "Media library entry was not found.");
}

#[test]
fn streaming_links_are_validated_stored_and_resolved() {
    let db = database();
    let availability = MediaAvailabilityService::new(&db);
    assert_eq!(
        availability.create_link(10, &link("https://netflix.com/x", "rent-ish", false)).unwrap_err().message,
        "Manual link type must be STREAM, RENT, BUY, or OTHER."
    );
    assert_eq!(
        availability.create_link(10, &link("ftp://x", "stream", false)).unwrap_err().message,
        "Only http and https URLs can be opened."
    );
    assert_eq!(
        availability.create_link(99, &link("https://netflix.com/x", "stream", false)).unwrap_err().kind,
        MediaErrorKind::NotFound
    );
    assert_eq!(
        availability.resolve_open_target(10).unwrap_err().message,
        "No preferred manual link or TMDB availability page is saved for this title."
    );
    let first = availability.create_link(10, &link(" https://netflix.com/a ", " stream ", true)).unwrap();
    assert_eq!(first.provider_name, "Netflix");
    assert_eq!(first.link_type, "STREAM");
    assert!(first.is_preferred);
    let second = availability.create_link(10, &link("https://hulu.com/b", "buy", true)).unwrap();
    let links = availability.list_links(10).unwrap();
    assert_eq!(links.len(), 2);
    assert_eq!(links[0].id, second.id);
    assert!(!links[1].is_preferred);
    assert_eq!(availability.resolve_open_target(10).unwrap(), "https://hulu.com/b");
    // The single statement that moves the preference meets the unique index
    // on preferred links while another link is still preferred.
    assert_eq!(availability.set_preferred(10, first.id).unwrap_err().kind, MediaErrorKind::Database);
    let updated = availability.update_link(second.id, &link("https://hulu.com/c", "other", false)).unwrap();
    assert_eq!(updated.url, "https://hulu.com/c");
    assert!(!updated.is_preferred);
    let links = availability.set_preferred(10, first.id).unwrap();
    assert_eq!(links[0].id, first.id);
    assert!(links[0].is_preferred);
    assert_eq!(
        availability.set_preferred(11, first.id).unwrap_err().message,
        "Manual streaming link does not belong to this entry."
    );
    availability.delete_link(second.id).unwrap();
    assert_eq!(
        availability.delete_link(second.id).unwrap_err().message,
        "Manual streaming link was not found."
    );
    assert_eq!(
        availability.update_link(second.id, &link("https://hulu.com/c", "other", false)).unwrap_err().message,
        "Manual streaming link was not found."
    );
}

#[test]
fn book_lookups_and_links() {
    let db = database();
    let repository = BookRepository::new(&db);
    assert_eq!(repository.find_existing_candidate("open_library", "OL1M", "", "").unwrap(), Some(12));
    assert_eq!(
        repository.find_existing_candidate("google_books", "zzz", "", "978-0-306-40615-7").unwrap(),
        Some(12)
    );
    assert_eq!(repository.find_existing_candidate("google_books", "zzz", "", "").unwrap(), None);
    assert_eq!(repository.source_identity_for_entry(12).unwrap(), ("open_library".to_string(), "OL1M".to_string()));
    assert_eq!(
        repository.source_identity_for_entry(10).unwrap_err().message,
        "This manual book has no provider identity to refresh."
    );
    let library = BookLibraryService::new(&db);
    assert_eq!(library.resolve_link(12, 40).unwrap(), "https://openlibrary.org/books/OL1M");
    assert_eq!(library.resolve_link(12, 41).unwrap_err().kind, MediaErrorKind::Validation);
    assert_eq!(library.resolve_link(12, 99).unwrap_err().message, "Book link was not found.");
    assert_eq!(library.resolve_link(10, 40).unwrap_err().message, "Book library entry was not found.");
    let status = BookCatalogService::new(&db).provider_status(Some(" key ".to_string()), Some("  ".to_string()), None);
    assert!(status.google_books_configured);
    assert!(!status.open_library_contact_configured);
    assert!(!status.hardcover_configured);
}

#[test]
fn pure_outcomes_of_statements() {
    assert_eq!(deletion_outcome(0, "gone").unwrap_err().message, "gone");
    assert!(deletion_outcome(2, "gone").is_ok());
    assert_eq!(streaming_target(None, Some("u".to_string())).unwrap(), "u");
    assert_eq!(streaming_target(Some("p".to_string()), Some("u".to_string())).unwrap(), "p");
    assert_eq!(
        tmdb_refresh_identity(("tmdb".to_string(), Some(1), None)).unwrap_err().message,
        "The saved TMDB title has no external media type."
    );
    assert_eq!(
        tmdb_refresh_identity(("tmdb".to_string(), None, None)).unwrap_err().message,
        "The saved TMDB title has no external identifier."
    );
    assert_eq!(isbn_lookup_keys("0-306-40615-2", "bad"), (String::new(), "0306406152".to_string()));
}

#[test]
fn settings_inputs_are_checked() {
    let ok = UpdateMediaSettingsInput {
        region_code: " us ".to_string(),
        metadata_language: "en-US".to_string(),
        include_specials_in_completion: true,
    };
    assert!(validate_settings(&ok).is_ok());
    let region = UpdateMediaSettingsInput { region_code: "USA".to_string(), ..ok.clone_input() };
    assert_eq!(
        validate_settings(&region).unwrap_err().message,
        "Region must be a two-letter country code such as CA."
    );
    let language = UpdateMediaSettingsInput { metadata_language: "e".to_string(), ..ok.clone_input() };
    assert_eq!(
        validate_settings(&language).unwrap_err().message,
        "Metadata language must be a language code such as en-CA."
    );
    let long = UpdateMediaSettingsInput { metadata_language: "éééééééé".to_string(), ..ok };
    assert!(validate_settings(&long).is_err());
}

trait CloneInput {
    fn clone_input(&self) -> Self;
}

impl CloneInput for UpdateMediaSettingsInput {
    fn clone_input(&self) -> Self {
        UpdateMediaSettingsInput {
            region_code: self.region_code.clone(),
            metadata_language: self.metadata_language.clone(),
            include_specials_in_completion: self.include_specials_in_completion,
        }
    }
}


fn seed_series(db: &AppDatabase) {
    db.connection()
        .execute_batch(
            "INSERT INTO obj_media_season (id, media_title_id, season_number, name) VALUES (20, 2, 0, 'Specials');
             INSERT INTO obj_media_season (id, media_title_id, season_number, name) VALUES (21, 2, 1, 'Season 1');
             INSERT INTO obj_media_episode (id, media_title_id, season_id, season_number, episode_number, name) VALUES (30, 2, 20, 0, 1, 'Special');
             INSERT INTO obj_media_episode (id, media_title_id, season_id, season_number, episode_number, name) VALUES (31, 2, 21, 1, 1, 'Pilot');
             INSERT INTO obj_media_episode (id, media_title_id, season_id, season_number, episode_number, name) VALUES (32, 2, 21, 1, 2, 'Second');
             INSERT INTO obj_media_episode (id, media_title_id, season_id, season_number, episode_number, name, is_present_in_source) VALUES (33, 2, 21, 1, 3, 'Gone', 0);
             INSERT INTO obj_media_episode_progress (episode_id, is_watched, watched_at) VALUES (30, 1, '2024-01-01');
             INSERT INTO obj_media_episode_progress (episode_id, is_watched, watched_at) VALUES (31, 1, '2024-01-02');
             INSERT INTO obj_media_episode_progress (episode_id, is_watched) VALUES (33, 1);",
        )
        .unwrap();
}

#[test]
fn seasons_count_present_episodes_and_leave_out_specials() {
    let db = database();
    seed_series(&db);
    let seasons = load_seasons(db.connection(), 2, false).unwrap();
    assert_eq!(seasons.len(), 2);
    assert_eq!(seasons[0].season_number, 0);
    assert_eq!((seasons[0].watched_count, seasons[0].progress_total), (0, 0));
    assert_eq!(seasons[1].episodes.len(), 3);
    assert_eq!((seasons[1].watched_count, seasons[1].progress_total), (1, 2));
    assert!(seasons[1].episodes[0].is_watched);
    assert_eq!(seasons[1].episodes[0].watched_at, "2024-01-02");
    assert!(!seasons[1].episodes[2].is_present_in_source);
    let with_specials = load_seasons(db.connection(), 2, true).unwrap();
    assert_eq!((with_specials[0].watched_count, with_specials[0].progress_total), (1, 1));
    assert!(load_seasons(db.connection(), 1, false).unwrap().is_empty());
}

#[test]
fn summary_progress_counts_a_movie_as_one_item() {
    assert_eq!(summary_progress(MediaContentType::Movie, "2024-01-01", "", 0, 0), (true, 1, 1));
    assert_eq!(summary_progress(MediaContentType::Movie, "", "2024-01-01", 0, 0), (true, 0, 1));
    assert_eq!(summary_progress(MediaContentType::Movie, "", "", 3, 9), (false, 0, 1));
    assert_eq!(summary_progress(MediaContentType::Series, "x", "y", 3, 9), (false, 3, 9));
}

fn filter() -> MediaLibraryFilter {
    MediaLibraryFilter {
        query: String::new(),
        content_type: None,
        library_status: None,
        is_favorite: None,
        tag_id: None,
        has_unwatched: None,
        provider_name: String::new(),
        is_watch_next: None,
        sort: "RECENTLY_ADDED".to_string(),
        sort_direction: "DESC".to_string(),
        limit: 50,
        offset: 0,
    }
}

fn run_ids(db: &AppDatabase, filter: &MediaLibraryFilter, include_specials: bool) -> Vec<i64> {
    let (sql, params) = library_query(filter, include_specials);
    let values: Vec<rusqlite::types::Value> = params
        .iter()
        .map(|p| match p {
            SqlParam::Integer(i) => rusqlite::types::Value::Integer(*i),
            SqlParam::Text(t) => rusqlite::types::Value::Text(t.clone()),
            SqlParam::Null => rusqlite::types::Value::Null,
        })
        .collect();
    let mut statement = db.connection().prepare(&sql).unwrap();
    let rows = statement
        .query_map(rusqlite::params_from_iter(values), |row| row.get::<_, i64>(0))
        .unwrap();
    rows.map(|r| r.unwrap()).collect()
}

#[test]
fn library_queries_filter_order_and_page() {
    let db = database();
    seed_series(&db);
    let mut all = filter();
    all.sort = "title".to_string();
    all.sort_direction = "asc".to_string();
    assert_eq!(run_ids(&db, &all, false), vec![12, 11, 10]);
    let mut movies = filter();
    movies.content_type = Some(MediaContentType::Movie);
    assert_eq!(run_ids(&db, &movies, false), vec![10]);
    let mut text = filter();
    text.query = "  matrix ".to_string();
    let (_, params) = library_query(&text, false);
    assert_eq!(params.len(), 6);
    assert!(matches!(&params[0], SqlParam::Text(t) if t == "%matrix%"));
    assert_eq!(run_ids(&db, &text, false), vec![10]);
    let mut queued = filter();
    queued.is_watch_next = Some(true);
    queued.sort = "WATCH_NEXT".to_string();
    assert_eq!(run_ids(&db, &queued, false), vec![10, 11]);
    let mut unwatched = filter();
    unwatched.has_unwatched = Some(true);
    unwatched.sort = "TITLE".to_string();
    unwatched.sort_direction = "ASC".to_string();
    assert_eq!(run_ids(&db, &unwatched, false), vec![11, 10]);
    let mut planned = filter();
    planned.library_status = Some(MediaLibraryStatus::Completed);
    assert!(run_ids(&db, &planned, false).is_empty());
    let mut page = all.clone();
    page.limit = 0;
    page.offset = -4;
    let (_, params) = library_query(&page, false);
    assert!(matches!(params[params.len() - 2], SqlParam::Integer(1)));
    assert!(matches!(params[params.len() - 1], SqlParam::Integer(0)));
    assert_eq!(run_ids(&db, &page, false), vec![12]);
}

#[test]
fn library_order_terms() {
    let order = |sort: &str, direction: &str| -> String {
        order_terms_chars(sort, direction).into_iter().collect()
    };
    assert_eq!(order(" title ", "asc"), "title.title COLLATE NOCASE ASC");
    assert_eq!(order("PROGRESS", "desc"), "progress_percent DESC, title.title COLLATE NOCASE ASC");
    assert_eq!(order("watch_next", "asc"), "entry.queue_position IS NULL ASC, entry.queue_position ASC");
    assert_eq!(order("PRIORITY", "sideways"), "entry.priority DESC, entry.added_at DESC");
    assert_eq!(order("whatever", "ASC"), "entry.added_at ASC");
}

fn queue_of(db: &AppDatabase, entry_id: i64) -> Option<i64> {
    db.connection()
        .query_row("SELECT queue_position FROM obj_media_library_entry WHERE id = ?1", [entry_id], |r| r.get(0))
        .unwrap()
}

fn status_of(db: &AppDatabase, entry_id: i64) -> String {
    db.connection()
        .query_row("SELECT library_status FROM obj_media_library_entry WHERE id = ?1", [entry_id], |r| r.get(0))
        .unwrap()
}

#[test]
fn movies_complete_when_watched_and_return_to_planned() {
    let db = database();
    let repository = MediaRepository::new(&db);
    assert_eq!(repository.set_movie_watched(10, true, " 2024-05-01 ").unwrap(), MediaLibraryStatus::Completed);
    assert_eq!(status_of(&db, 10), "COMPLETED");
    let completed: String = db
        .connection()
        .query_row("SELECT completed_at FROM obj_media_library_entry WHERE id = 10", [], |r| r.get(0))
        .unwrap();
    assert_eq!(completed, "2024-05-01");
    assert_eq!(repository.set_movie_watched(10, false, "").unwrap(), MediaLibraryStatus::Planned);
    let err = repository.set_movie_watched(11, true, "").unwrap_err();
    assert_eq!(err.message, "Movie watched state can only be set on a movie.");
    assert_eq!(repository.set_movie_watched(99, true, "").unwrap_err().kind, MediaErrorKind::NotFound);
}

#[test]
fn series_status_follows_watched_episodes() {
    let db = database();
    seed_series(&db);
    let repository = MediaRepository::new(&db);
    assert_eq!(repository.set_episode_watched(11, 32, true, "").unwrap(), MediaLibraryStatus::Completed);
    assert_eq!(repository.set_episode_watched(11, 31, false, "").unwrap(), MediaLibraryStatus::Watching);
    assert_eq!(
        repository.set_episode_watched(11, 99, true, "").unwrap_err().message,
        "The episode does not belong to this library entry."
    );
    assert_eq!(
        repository.set_season_watched(11, 5, true).unwrap_err().message,
        "No episodes were found for that season."
    );
    assert_eq!(repository.set_series_watched(11, false).unwrap(), MediaLibraryStatus::Watching);
    assert_eq!(repository.mark_watched_through(11, 32).unwrap(), MediaLibraryStatus::Completed);
    assert_eq!(status_of(&db, 11), "COMPLETED");
    assert_eq!(repository.set_season_watched(11, 1, false).unwrap(), MediaLibraryStatus::Watching);
    assert_eq!(
        repository.set_series_watched(10, true).unwrap_err().message,
        "This series has no imported episodes to update."
    );
}

#[test]
fn watch_next_queue_moves_and_closes_gaps() {
    let db = database();
    let repository = MediaRepository::new(&db);
    assert_eq!(
        repository.add_to_watch_next(12).unwrap_err().message,
        "Books use the separate Read Next queue."
    );
    repository.remove_from_watch_next(10).unwrap();
    assert_eq!(queue_of(&db, 10), None);
    assert_eq!(queue_of(&db, 11), Some(1));
    repository.move_watch_next(11, " up ").unwrap();
    assert_eq!(queue_of(&db, 11), Some(1));
    repository.add_to_watch_next(10).unwrap();
    assert_eq!(queue_of(&db, 10), Some(2));
    repository.add_to_watch_next(10).unwrap();
    assert_eq!(queue_of(&db, 10), Some(2));
    repository.move_watch_next(10, "UP").unwrap();
    assert_eq!((queue_of(&db, 10), queue_of(&db, 11)), (Some(1), Some(2)));
    repository.move_watch_next(11, "down").unwrap();
    assert_eq!((queue_of(&db, 10), queue_of(&db, 11)), (Some(1), Some(2)));
    assert_eq!(
        repository.move_watch_next(10, "left").unwrap_err().message,
        "Watch Next direction must be UP or DOWN."
    );
    assert_eq!(repository.move_watch_next(12, "UP").unwrap_err().kind, MediaErrorKind::Database);
    assert_eq!(
        repository.move_watch_next(99, "UP").unwrap_err().message,
        "This title is not currently in Watch Next."
    );
    assert_eq!(repository.remove_from_watch_next(99).unwrap_err().kind, MediaErrorKind::NotFound);
    repository.mark_refresh_failure(10, "Network: down").unwrap();
    assert_eq!(repository.mark_refresh_failure(99, "x").unwrap_err().kind, MediaErrorKind::NotFound);
}

/// The library of the series import: entry 50 of series title 5, with a
/// special (episode 60) and two regular episodes (61, 62), and three manual
/// movies (entries 71, 72, 73).
fn imported_library() -> AppDatabase {
    let connection = rusqlite::Connection::open_in_memory().unwrap();
    connection.execute_batch(SCHEMA).unwrap();
    connection
        .execute_batch(
            "INSERT INTO obj_media_title (id, source_key, external_id, external_media_type, content_type, title) VALUES (5, 'tmdb', 42, 'tv', 'SERIES', 'Test Series');
             INSERT INTO obj_media_library_entry (id, media_title_id) VALUES (50, 5);
             INSERT INTO obj_media_season (id, media_title_id, external_id, season_number, name, episode_count) VALUES (55, 5, 400, 0, 'Specials', 1);
             INSERT INTO obj_media_season (id, media_title_id, external_id, season_number, name, episode_count) VALUES (56, 5, 401, 1, 'Season 1', 2);
             INSERT INTO obj_media_episode (id, media_title_id, season_id, external_id, season_number, episode_number, name) VALUES (60, 5, 55, 100, 0, 1, 'S0E1');
             INSERT INTO obj_media_episode (id, media_title_id, season_id, external_id, season_number, episode_number, name) VALUES (61, 5, 56, 101, 1, 1, 'S1E1');
             INSERT INTO obj_media_episode (id, media_title_id, season_id, external_id, season_number, episode_number, name) VALUES (62, 5, 56, 102, 1, 2, 'S1E2');
             INSERT INTO obj_media_title (id, source_key, content_type, title) VALUES (6, 'manual', 'MOVIE', 'First');
             INSERT INTO obj_media_title (id, source_key, content_type, title) VALUES (7, 'manual', 'MOVIE', 'Second');
             INSERT INTO obj_media_title (id, source_key, content_type, title) VALUES (8, 'manual', 'MOVIE', 'Third');
             INSERT INTO obj_media_library_entry (id, media_title_id) VALUES (71, 6);
             INSERT INTO obj_media_library_entry (id, media_title_id) VALUES (72, 7);
             INSERT INTO obj_media_library_entry (id, media_title_id) VALUES (73, 8);",
        )
        .unwrap();
    AppDatabase::new(connection)
}

fn progress_total(db: &AppDatabase, include_specials: bool) -> i64 {
    load_seasons(db.connection(), 5, include_specials)
        .unwrap()
        .iter()
        .map(|season| season.progress_total)
        .sum()
}

fn set_status(db: &AppDatabase, entry_id: i64, status: &str) {
    db.connection()
        .execute(
            "UPDATE obj_media_library_entry SET library_status = ?2 WHERE id = ?1",
            (entry_id, status),
        )
        .unwrap();
}

#[test]
fn progress_transitions_and_specials_setting_are_consistent() {
    let db = imported_library();
    let repository = MediaRepository::new(&db);
    let (entry, special_id, regular) = (50, 60, [61, 62]);

    let status = repository.set_episode_watched(entry, regular[0], true, "").expect("first episode should update");
    assert_eq!(status, MediaLibraryStatus::Watching);

    let status = repository.set_episode_watched(entry, regular[1], true, "").expect("second episode should update");
    assert_eq!(status, MediaLibraryStatus::Completed);
    assert_eq!(progress_total(&db, false), 2);

    let status = repository.set_episode_watched(entry, regular[1], false, "").expect("episode should become unwatched");
    assert_eq!(status, MediaLibraryStatus::Watching);

    set_status(&db, entry, "ON_HOLD");
    let held = repository.set_series_watched(entry, true).expect("bulk watch should work");
    assert_eq!(held, MediaLibraryStatus::OnHold);

    set_status(&db, entry, "WATCHING");
    let completed = repository.set_episode_watched(entry, special_id, false, "").expect("special should become unwatched");
    assert_eq!(completed, MediaLibraryStatus::Completed, "specials are excluded by default");

    repository
        .update_settings(&UpdateMediaSettingsInput {
            region_code: "CA".to_string(),
            metadata_language: "en-CA".to_string(),
            include_specials_in_completion: true,
        })
        .expect("settings should update");
    assert_eq!(status_of(&db, entry), "WATCHING");
    assert_eq!(progress_total(&db, true), 3);

    let status = repository
        .mark_watched_through(entry, regular[1])
        .expect("mark through should update preceding episodes");
    assert_eq!(status, MediaLibraryStatus::Completed);
    assert!(load_seasons(db.connection(), 5, true).unwrap()[0].episodes[0].is_watched);
}

#[test]
fn queue_tags_and_preferred_links_normalize_without_duplicates() {
    let db = imported_library();
    let repository = MediaRepository::new(&db);
    let (first, second, third) = (71, 72, 73);
    repository.add_to_watch_next(first).expect("first should queue");
    repository.add_to_watch_next(second).expect("second should queue");
    repository.add_to_watch_next(third).expect("third should queue");
    repository.remove_from_watch_next(second).expect("middle should leave queue");
    assert_eq!(queue_of(&db, third), Some(2));
    repository.move_watch_next(third, "UP").expect("third should move up");
    assert_eq!(queue_of(&db, third), Some(1));

    let first_tag = repository.create_tag("Anime").expect("tag should create");
    let same_tag = repository.create_tag("anime").expect("tag should be reused");
    assert_eq!(first_tag.id, same_tag.id);

    let first_link = repository
        .create_streaming_link(
            first,
            &MediaStreamingLinkInput {
                provider_name: "One".to_string(),
                url: "https://example.com/one".to_string(),
                link_type: "STREAM".to_string(),
                is_preferred: true,
                notes: String::new(),
            },
        )
        .expect("first link should create");
    let second_link = repository
        .create_streaming_link(
            first,
            &MediaStreamingLinkInput {
                provider_name: "Two".to_string(),
                url: "https://example.com/two".to_string(),
                link_type: "STREAM".to_string(),
                is_preferred: true,
                notes: String::new(),
            },
        )
        .expect("second link should create");
    let links = repository.list_streaming_links(first).expect("links should list");
    assert_eq!(links.iter().filter(|link| link.is_preferred).count(), 1);
    assert_eq!(
        links.iter().find(|link| link.is_preferred).expect("preferred link should exist").id,
        second_link.id
    );
    assert_ne!(first_link.id, second_link.id);
}

#[test]
fn entry_tags_are_replaced_and_unknown_tags_refused() {
    let db = imported_library();
    let repository = MediaRepository::new(&db);
    let comfort = repository.create_tag("Comfort").unwrap();
    let drama = repository.create_tag("Drama").unwrap();
    repository.set_entry_tags(50, &[comfort.id, drama.id]).unwrap();
    let count = |db: &AppDatabase| -> i64 {
        db.connection()
            .query_row("SELECT COUNT(*) FROM n2n_media_library_entry_tag WHERE media_library_entry_id = 50", [], |r| r.get(0))
            .unwrap()
    };
    assert_eq!(count(&db), 2);
    repository.set_entry_tags(50, &[drama.id]).unwrap();
    assert_eq!(count(&db), 1);
    let error = repository.set_entry_tags(50, &[drama.id, 999]).unwrap_err();
    assert_eq!(error.kind, MediaErrorKind::NotFound);
    assert_eq!(error.message, "Media tag 999 was not found.");
    // The refused change left the earlier tags in place.
    assert_eq!(count(&db), 1);
    assert_eq!(
        repository.set_entry_tags(999, &[]).unwrap_err().message,
        "Media library entry was not found."
    );
    let library = MediaLibraryService::new(&db);
    library.set_entry_tags(50, &[]).unwrap();
    assert_eq!(count(&db), 0);
}

#[test]
fn settings_updates_are_checked_saved_and_read_back() {
    let db = imported_library();
    let library = MediaLibraryService::new(&db);
    let saved = library
        .update_settings(&UpdateMediaSettingsInput {
            region_code: " us ".to_string(),
            metadata_language: " en-US ".to_string(),
            include_specials_in_completion: true,
        })
        .unwrap();
    assert_eq!(saved.region_code, "US");
    assert_eq!(saved.metadata_language, "en-US");
    assert!(saved.include_specials_in_completion);
    let refused = library
        .update_settings(&UpdateMediaSettingsInput {
            region_code: "USA".to_string(),
            metadata_language: "en".to_string(),
            include_specials_in_completion: false,
        })
        .unwrap_err();
    assert_eq!(refused.message, "Region must be a two-letter country code such as CA.");
    assert_eq!(library.get_settings().unwrap().region_code, "US");
}
