//! The media library's tables: creating them when they are missing, and
//! rebuilding the title table of an older library so that it accepts
//! books. Each step is a batch of statements run by rusqlite.
use crate::database::{invalid_query_error, sql_execute_batch, sql_optional_i64, sql_optional_text, SqlParam};
use crate::text::{contains, upper_ascii};
use vstd::prelude::*;

verus! {

/// The tables and indexes of movies, series, their progress, tags, links,
/// availability and settings.
pub const MEDIA_SCHEMA: &'static str = "
        PRAGMA foreign_keys = ON;

        CREATE TABLE IF NOT EXISTS obj_media_title (
            id INTEGER PRIMARY KEY AUTOINCREMENT,
            source_key TEXT NOT NULL,
            external_id INTEGER,
            external_media_type TEXT,
            content_type TEXT NOT NULL CHECK (content_type IN ('MOVIE', 'SERIES')),
            title TEXT NOT NULL,
            original_title TEXT NOT NULL DEFAULT '',
            overview TEXT NOT NULL DEFAULT '',
            original_language TEXT NOT NULL DEFAULT '',
            release_date TEXT NOT NULL DEFAULT '',
            first_air_date TEXT NOT NULL DEFAULT '',
            last_air_date TEXT NOT NULL DEFAULT '',
            runtime_minutes INTEGER,
            episode_runtime_minutes INTEGER,
            external_status TEXT NOT NULL DEFAULT '',
            series_type TEXT NOT NULL DEFAULT '',
            poster_path TEXT NOT NULL DEFAULT '',
            backdrop_path TEXT NOT NULL DEFAULT '',
            homepage_url TEXT NOT NULL DEFAULT '',
            total_seasons INTEGER,
            total_episodes INTEGER,
            metadata_json TEXT NOT NULL DEFAULT '{}',
            metadata_refreshed_at TEXT NOT NULL DEFAULT '',
            created_at TEXT NOT NULL DEFAULT CURRENT_TIMESTAMP,
            updated_at TEXT NOT NULL DEFAULT CURRENT_TIMESTAMP,
            UNIQUE (source_key, external_media_type, external_id)
        );

        CREATE TABLE IF NOT EXISTS obj_media_library_entry (
            id INTEGER PRIMARY KEY AUTOINCREMENT,
            media_title_id INTEGER NOT NULL UNIQUE,
            library_status TEXT NOT NULL DEFAULT 'PLANNED'
                CHECK (library_status IN ('PLANNED', 'WATCHING', 'COMPLETED', 'ON_HOLD', 'DROPPED')),
            is_favorite INTEGER NOT NULL DEFAULT 0,
            personal_rating REAL CHECK (
                personal_rating IS NULL OR (personal_rating >= 1.0 AND personal_rating <= 10.0)
            ),
            notes TEXT NOT NULL DEFAULT '',
            priority INTEGER NOT NULL DEFAULT 0,
            queue_position INTEGER UNIQUE,
            new_episodes_count INTEGER NOT NULL DEFAULT 0,
            added_at TEXT NOT NULL DEFAULT (datetime('now', 'localtime')),
            started_at TEXT NOT NULL DEFAULT '',
            completed_at TEXT NOT NULL DEFAULT '',
            last_watched_at TEXT NOT NULL DEFAULT '',
            created_at TEXT NOT NULL DEFAULT CURRENT_TIMESTAMP,
            updated_at TEXT NOT NULL DEFAULT CURRENT_TIMESTAMP,
            FOREIGN KEY (media_title_id) REFERENCES obj_media_title(id) ON DELETE CASCADE
        );

        CREATE TABLE IF NOT EXISTS obj_media_season (
            id INTEGER PRIMARY KEY AUTOINCREMENT,
            media_title_id INTEGER NOT NULL,
            external_id INTEGER,
            season_number INTEGER NOT NULL,
            name TEXT NOT NULL DEFAULT '',
            overview TEXT NOT NULL DEFAULT '',
            air_date TEXT NOT NULL DEFAULT '',
            poster_path TEXT NOT NULL DEFAULT '',
            episode_count INTEGER NOT NULL DEFAULT 0,
            is_present_in_source INTEGER NOT NULL DEFAULT 1,
            metadata_json TEXT NOT NULL DEFAULT '{}',
            metadata_refreshed_at TEXT NOT NULL DEFAULT '',
            created_at TEXT NOT NULL DEFAULT CURRENT_TIMESTAMP,
            updated_at TEXT NOT NULL DEFAULT CURRENT_TIMESTAMP,
            UNIQUE (media_title_id, season_number),
            FOREIGN KEY (media_title_id) REFERENCES obj_media_title(id) ON DELETE CASCADE
        );

        CREATE TABLE IF NOT EXISTS obj_media_episode (
            id INTEGER PRIMARY KEY AUTOINCREMENT,
            media_title_id INTEGER NOT NULL,
            season_id INTEGER NOT NULL,
            external_id INTEGER,
            season_number INTEGER NOT NULL,
            episode_number INTEGER NOT NULL,
            name TEXT NOT NULL DEFAULT '',
            overview TEXT NOT NULL DEFAULT '',
            air_date TEXT NOT NULL DEFAULT '',
            runtime_minutes INTEGER,
            still_path TEXT NOT NULL DEFAULT '',
            is_present_in_source INTEGER NOT NULL DEFAULT 1,
            metadata_json TEXT NOT NULL DEFAULT '{}',
            metadata_refreshed_at TEXT NOT NULL DEFAULT '',
            created_at TEXT NOT NULL DEFAULT CURRENT_TIMESTAMP,
            updated_at TEXT NOT NULL DEFAULT CURRENT_TIMESTAMP,
            UNIQUE (media_title_id, season_number, episode_number),
            FOREIGN KEY (media_title_id) REFERENCES obj_media_title(id) ON DELETE CASCADE,
            FOREIGN KEY (season_id) REFERENCES obj_media_season(id) ON DELETE CASCADE
        );

        CREATE UNIQUE INDEX IF NOT EXISTS idx_media_episode_external_identity
            ON obj_media_episode (media_title_id, external_id)
            WHERE external_id IS NOT NULL;

        CREATE TABLE IF NOT EXISTS obj_media_episode_progress (
            id INTEGER PRIMARY KEY AUTOINCREMENT,
            episode_id INTEGER NOT NULL UNIQUE,
            is_watched INTEGER NOT NULL DEFAULT 0,
            watched_at TEXT NOT NULL DEFAULT '',
            notes TEXT NOT NULL DEFAULT '',
            created_at TEXT NOT NULL DEFAULT CURRENT_TIMESTAMP,
            updated_at TEXT NOT NULL DEFAULT CURRENT_TIMESTAMP,
            FOREIGN KEY (episode_id) REFERENCES obj_media_episode(id) ON DELETE CASCADE
        );

        CREATE TABLE IF NOT EXISTS obj_media_provider_snapshot (
            id INTEGER PRIMARY KEY AUTOINCREMENT,
            media_title_id INTEGER NOT NULL,
            region_code TEXT NOT NULL,
            source_key TEXT NOT NULL DEFAULT 'tmdb',
            source_link_url TEXT NOT NULL DEFAULT '',
            refreshed_at TEXT NOT NULL DEFAULT '',
            last_refresh_status TEXT NOT NULL DEFAULT '',
            last_refresh_error TEXT NOT NULL DEFAULT '',
            created_at TEXT NOT NULL DEFAULT CURRENT_TIMESTAMP,
            updated_at TEXT NOT NULL DEFAULT CURRENT_TIMESTAMP,
            UNIQUE (media_title_id, region_code),
            FOREIGN KEY (media_title_id) REFERENCES obj_media_title(id) ON DELETE CASCADE
        );

        CREATE TABLE IF NOT EXISTS obj_media_provider_availability (
            id INTEGER PRIMARY KEY AUTOINCREMENT,
            snapshot_id INTEGER NOT NULL,
            provider_external_id INTEGER NOT NULL,
            provider_name TEXT NOT NULL,
            provider_logo_path TEXT NOT NULL DEFAULT '',
            monetization_type TEXT NOT NULL
                CHECK (monetization_type IN ('FLATRATE', 'FREE', 'ADS', 'RENT', 'BUY')),
            display_priority INTEGER NOT NULL DEFAULT 0,
            created_at TEXT NOT NULL DEFAULT CURRENT_TIMESTAMP,
            updated_at TEXT NOT NULL DEFAULT CURRENT_TIMESTAMP,
            UNIQUE (snapshot_id, provider_external_id, monetization_type),
            FOREIGN KEY (snapshot_id) REFERENCES obj_media_provider_snapshot(id) ON DELETE CASCADE
        );

        CREATE TABLE IF NOT EXISTS obj_media_streaming_link (
            id INTEGER PRIMARY KEY AUTOINCREMENT,
            media_library_entry_id INTEGER NOT NULL,
            provider_name TEXT NOT NULL DEFAULT '',
            url TEXT NOT NULL,
            link_type TEXT NOT NULL DEFAULT 'STREAM'
                CHECK (link_type IN ('STREAM', 'RENT', 'BUY', 'OTHER')),
            is_preferred INTEGER NOT NULL DEFAULT 0,
            notes TEXT NOT NULL DEFAULT '',
            created_at TEXT NOT NULL DEFAULT CURRENT_TIMESTAMP,
            updated_at TEXT NOT NULL DEFAULT CURRENT_TIMESTAMP,
            FOREIGN KEY (media_library_entry_id)
                REFERENCES obj_media_library_entry(id) ON DELETE CASCADE
        );

        CREATE UNIQUE INDEX IF NOT EXISTS idx_media_streaming_link_preferred
            ON obj_media_streaming_link (media_library_entry_id)
            WHERE is_preferred = 1;

        CREATE TABLE IF NOT EXISTS obj_media_tag (
            id INTEGER PRIMARY KEY AUTOINCREMENT,
            name TEXT NOT NULL COLLATE NOCASE UNIQUE,
            created_at TEXT NOT NULL DEFAULT CURRENT_TIMESTAMP,
            updated_at TEXT NOT NULL DEFAULT CURRENT_TIMESTAMP
        );

        CREATE TABLE IF NOT EXISTS n2n_media_library_entry_tag (
            id INTEGER PRIMARY KEY AUTOINCREMENT,
            media_library_entry_id INTEGER NOT NULL,
            media_tag_id INTEGER NOT NULL,
            created_at TEXT NOT NULL DEFAULT CURRENT_TIMESTAMP,
            UNIQUE (media_library_entry_id, media_tag_id),
            FOREIGN KEY (media_library_entry_id)
                REFERENCES obj_media_library_entry(id) ON DELETE CASCADE,
            FOREIGN KEY (media_tag_id) REFERENCES obj_media_tag(id) ON DELETE CASCADE
        );

        CREATE TABLE IF NOT EXISTS obj_media_setting (
            id INTEGER PRIMARY KEY CHECK (id = 1),
            region_code TEXT NOT NULL DEFAULT 'CA',
            metadata_language TEXT NOT NULL DEFAULT 'en-CA',
            include_specials_in_completion INTEGER NOT NULL DEFAULT 0,
            created_at TEXT NOT NULL DEFAULT CURRENT_TIMESTAMP,
            updated_at TEXT NOT NULL DEFAULT CURRENT_TIMESTAMP
        );

        INSERT OR IGNORE INTO obj_media_setting (
            id, region_code, metadata_language, include_specials_in_completion
        ) VALUES (1, 'CA', 'en-CA', 0);

        CREATE INDEX IF NOT EXISTS idx_media_title_search ON obj_media_title (title COLLATE NOCASE);
        CREATE INDEX IF NOT EXISTS idx_media_title_source ON obj_media_title (
            source_key, external_media_type, external_id
        );
        CREATE INDEX IF NOT EXISTS idx_media_library_status ON obj_media_library_entry (library_status);
        CREATE INDEX IF NOT EXISTS idx_media_library_favorite ON obj_media_library_entry (is_favorite);
        CREATE INDEX IF NOT EXISTS idx_media_library_queue ON obj_media_library_entry (queue_position);
        CREATE INDEX IF NOT EXISTS idx_media_library_added ON obj_media_library_entry (added_at);
        CREATE INDEX IF NOT EXISTS idx_media_library_watched ON obj_media_library_entry (last_watched_at);
        CREATE INDEX IF NOT EXISTS idx_media_season_title ON obj_media_season (
            media_title_id, season_number
        );
        CREATE INDEX IF NOT EXISTS idx_media_episode_season ON obj_media_episode (
            season_id, episode_number
        );
        CREATE INDEX IF NOT EXISTS idx_media_episode_title_order ON obj_media_episode (
            media_title_id, season_number, episode_number
        );
        CREATE INDEX IF NOT EXISTS idx_media_episode_progress_watched
            ON obj_media_episode_progress (is_watched);
        CREATE INDEX IF NOT EXISTS idx_media_provider_name
            ON obj_media_provider_availability (provider_name COLLATE NOCASE);
        CREATE INDEX IF NOT EXISTS idx_media_tag_mapping_entry
            ON n2n_media_library_entry_tag (media_library_entry_id);
        CREATE INDEX IF NOT EXISTS idx_media_tag_mapping_tag
            ON n2n_media_library_entry_tag (media_tag_id);
        ";

/// The tables and indexes of books: works, editions, sources, authors,
/// reader state, links and series.
pub const BOOK_SCHEMA: &'static str = "
        CREATE TABLE IF NOT EXISTS obj_media_book_work (
            id INTEGER PRIMARY KEY AUTOINCREMENT,
            media_title_id INTEGER NOT NULL UNIQUE,
            subtitle TEXT NOT NULL DEFAULT '',
            primary_author_text TEXT NOT NULL DEFAULT '',
            first_publish_year INTEGER,
            subjects_json TEXT NOT NULL DEFAULT '[]',
            canonical_cover_url TEXT NOT NULL DEFAULT '',
            community_rating REAL,
            community_rating_count INTEGER,
            metadata_refreshed_at TEXT NOT NULL DEFAULT '',
            created_at TEXT NOT NULL DEFAULT CURRENT_TIMESTAMP,
            updated_at TEXT NOT NULL DEFAULT CURRENT_TIMESTAMP,
            FOREIGN KEY (media_title_id) REFERENCES obj_media_title(id) ON DELETE CASCADE
        );

        CREATE TABLE IF NOT EXISTS obj_media_book_edition (
            id INTEGER PRIMARY KEY AUTOINCREMENT,
            media_title_id INTEGER NOT NULL,
            title TEXT NOT NULL,
            subtitle TEXT NOT NULL DEFAULT '',
            format TEXT NOT NULL DEFAULT 'UNKNOWN'
                CHECK (format IN ('HARDCOVER','PAPERBACK','EBOOK','AUDIOBOOK','OTHER','UNKNOWN')),
            isbn_10 TEXT NOT NULL DEFAULT '',
            isbn_13 TEXT NOT NULL DEFAULT '',
            publisher TEXT NOT NULL DEFAULT '',
            published_date TEXT NOT NULL DEFAULT '',
            language TEXT NOT NULL DEFAULT '',
            page_count INTEGER CHECK (page_count IS NULL OR page_count > 0),
            audio_duration_minutes INTEGER
                CHECK (audio_duration_minutes IS NULL OR audio_duration_minutes > 0),
            cover_url TEXT NOT NULL DEFAULT '',
            is_ebook INTEGER NOT NULL DEFAULT 0,
            access_viewability TEXT NOT NULL DEFAULT '',
            is_present_in_source INTEGER NOT NULL DEFAULT 1,
            metadata_refreshed_at TEXT NOT NULL DEFAULT '',
            created_at TEXT NOT NULL DEFAULT CURRENT_TIMESTAMP,
            updated_at TEXT NOT NULL DEFAULT CURRENT_TIMESTAMP,
            FOREIGN KEY (media_title_id) REFERENCES obj_media_title(id) ON DELETE CASCADE
        );

        CREATE UNIQUE INDEX IF NOT EXISTS idx_media_book_edition_isbn13_unique
            ON obj_media_book_edition (isbn_13) WHERE isbn_13 <> '';
        CREATE UNIQUE INDEX IF NOT EXISTS idx_media_book_edition_isbn10_unique
            ON obj_media_book_edition (isbn_10) WHERE isbn_10 <> '';

        CREATE TABLE IF NOT EXISTS obj_media_book_source_record (
            id INTEGER PRIMARY KEY AUTOINCREMENT,
            media_title_id INTEGER NOT NULL,
            edition_id INTEGER,
            source_key TEXT NOT NULL
                CHECK (source_key IN ('google_books','open_library','hardcover','manual')),
            entity_type TEXT NOT NULL CHECK (entity_type IN ('WORK','EDITION','BOOK')),
            external_id TEXT NOT NULL,
            source_url TEXT NOT NULL DEFAULT '',
            metadata_json TEXT NOT NULL DEFAULT '{}',
            refreshed_at TEXT NOT NULL DEFAULT '',
            last_refresh_status TEXT NOT NULL DEFAULT '',
            last_refresh_error TEXT NOT NULL DEFAULT '',
            created_at TEXT NOT NULL DEFAULT CURRENT_TIMESTAMP,
            updated_at TEXT NOT NULL DEFAULT CURRENT_TIMESTAMP,
            UNIQUE (source_key, entity_type, external_id),
            FOREIGN KEY (media_title_id) REFERENCES obj_media_title(id) ON DELETE CASCADE,
            FOREIGN KEY (edition_id) REFERENCES obj_media_book_edition(id) ON DELETE SET NULL
        );

        CREATE TABLE IF NOT EXISTS obj_media_book_author (
            id INTEGER PRIMARY KEY AUTOINCREMENT,
            name TEXT NOT NULL,
            sort_name TEXT NOT NULL DEFAULT '',
            created_at TEXT NOT NULL DEFAULT CURRENT_TIMESTAMP,
            updated_at TEXT NOT NULL DEFAULT CURRENT_TIMESTAMP
        );

        CREATE TABLE IF NOT EXISTS n2n_media_book_work_author (
            id INTEGER PRIMARY KEY AUTOINCREMENT,
            media_title_id INTEGER NOT NULL,
            author_id INTEGER NOT NULL,
            role TEXT NOT NULL DEFAULT 'AUTHOR'
                CHECK (role IN ('AUTHOR','EDITOR','NARRATOR','TRANSLATOR','OTHER')),
            position INTEGER NOT NULL DEFAULT 0,
            created_at TEXT NOT NULL DEFAULT CURRENT_TIMESTAMP,
            updated_at TEXT NOT NULL DEFAULT CURRENT_TIMESTAMP,
            UNIQUE (media_title_id, author_id, role),
            FOREIGN KEY (media_title_id) REFERENCES obj_media_title(id) ON DELETE CASCADE,
            FOREIGN KEY (author_id) REFERENCES obj_media_book_author(id) ON DELETE CASCADE
        );

        CREATE TABLE IF NOT EXISTS obj_media_book_reader_state (
            id INTEGER PRIMARY KEY AUTOINCREMENT,
            media_library_entry_id INTEGER NOT NULL UNIQUE,
            preferred_edition_id INTEGER,
            ownership_status TEXT NOT NULL DEFAULT 'NONE'
                CHECK (ownership_status IN ('NONE','OWNED','BORROWED','WISHLIST')),
            preferred_format TEXT NOT NULL DEFAULT 'UNKNOWN'
                CHECK (preferred_format IN ('HARDCOVER','PAPERBACK','EBOOK','AUDIOBOOK','OTHER','UNKNOWN')),
            progress_unit TEXT NOT NULL DEFAULT 'PAGE'
                CHECK (progress_unit IN ('PAGE','PERCENT','MINUTE','CHAPTER')),
            progress_value REAL NOT NULL DEFAULT 0 CHECK (progress_value >= 0),
            progress_total_override REAL CHECK (
                progress_total_override IS NULL OR progress_total_override >= 0
            ),
            current_chapter TEXT NOT NULL DEFAULT '',
            reading_queue_position INTEGER UNIQUE,
            last_progress_at TEXT NOT NULL DEFAULT '',
            created_at TEXT NOT NULL DEFAULT CURRENT_TIMESTAMP,
            updated_at TEXT NOT NULL DEFAULT CURRENT_TIMESTAMP,
            FOREIGN KEY (media_library_entry_id)
                REFERENCES obj_media_library_entry(id) ON DELETE CASCADE,
            FOREIGN KEY (preferred_edition_id)
                REFERENCES obj_media_book_edition(id) ON DELETE SET NULL
        );

        CREATE TABLE IF NOT EXISTS obj_media_book_link (
            id INTEGER PRIMARY KEY AUTOINCREMENT,
            media_title_id INTEGER NOT NULL,
            edition_id INTEGER,
            source_key TEXT NOT NULL DEFAULT 'manual',
            link_type TEXT NOT NULL CHECK (link_type IN ('INFO','PREVIEW','READ','BORROW','BUY','OTHER')),
            url TEXT NOT NULL,
            region_code TEXT NOT NULL DEFAULT '',
            is_user_owned INTEGER NOT NULL DEFAULT 0,
            is_preferred INTEGER NOT NULL DEFAULT 0,
            refreshed_at TEXT NOT NULL DEFAULT '',
            created_at TEXT NOT NULL DEFAULT CURRENT_TIMESTAMP,
            updated_at TEXT NOT NULL DEFAULT CURRENT_TIMESTAMP,
            FOREIGN KEY (media_title_id) REFERENCES obj_media_title(id) ON DELETE CASCADE,
            FOREIGN KEY (edition_id) REFERENCES obj_media_book_edition(id) ON DELETE SET NULL
        );

        CREATE UNIQUE INDEX IF NOT EXISTS idx_media_book_link_preferred_user
            ON obj_media_book_link (media_title_id)
            WHERE is_user_owned = 1 AND is_preferred = 1;

        CREATE TABLE IF NOT EXISTS obj_media_book_series (
            id INTEGER PRIMARY KEY AUTOINCREMENT,
            name TEXT NOT NULL COLLATE NOCASE UNIQUE,
            created_at TEXT NOT NULL DEFAULT CURRENT_TIMESTAMP,
            updated_at TEXT NOT NULL DEFAULT CURRENT_TIMESTAMP
        );

        CREATE TABLE IF NOT EXISTS obj_media_book_series_member (
            id INTEGER PRIMARY KEY AUTOINCREMENT,
            series_id INTEGER NOT NULL,
            media_title_id INTEGER NOT NULL,
            position_text TEXT NOT NULL DEFAULT '',
            position_sort REAL,
            is_primary INTEGER NOT NULL DEFAULT 0,
            source_key TEXT NOT NULL DEFAULT 'manual',
            is_user_override INTEGER NOT NULL DEFAULT 0,
            created_at TEXT NOT NULL DEFAULT CURRENT_TIMESTAMP,
            updated_at TEXT NOT NULL DEFAULT CURRENT_TIMESTAMP,
            UNIQUE (series_id, media_title_id, source_key),
            FOREIGN KEY (series_id) REFERENCES obj_media_book_series(id) ON DELETE CASCADE,
            FOREIGN KEY (media_title_id) REFERENCES obj_media_title(id) ON DELETE CASCADE
        );

        CREATE INDEX IF NOT EXISTS idx_media_book_title_type
            ON obj_media_title (content_type, title COLLATE NOCASE);
        CREATE INDEX IF NOT EXISTS idx_media_book_author_name
            ON obj_media_book_author (name COLLATE NOCASE);
        CREATE INDEX IF NOT EXISTS idx_media_book_source_identity
            ON obj_media_book_source_record (source_key, entity_type, external_id);
        CREATE INDEX IF NOT EXISTS idx_media_book_reader_preferred
            ON obj_media_book_reader_state (preferred_edition_id);
        CREATE INDEX IF NOT EXISTS idx_media_book_reading_queue
            ON obj_media_book_reader_state (reading_queue_position);
        CREATE INDEX IF NOT EXISTS idx_media_book_progress_timestamp
            ON obj_media_book_reader_state (last_progress_at);
        CREATE INDEX IF NOT EXISTS idx_media_book_series_order
            ON obj_media_book_series_member (series_id, position_sort, position_text);
        CREATE INDEX IF NOT EXISTS idx_media_book_series_title
            ON obj_media_book_series_member (media_title_id);
        CREATE INDEX IF NOT EXISTS idx_media_book_link_lookup
            ON obj_media_book_link (media_title_id, link_type);
        ";

/// The statements that rebuild the title table with `BOOK` among its
/// content types, keeping every row and id.
pub const BOOK_TITLE_REBUILD: &'static str = "
        CREATE TABLE obj_media_title_book_migration (
            id INTEGER PRIMARY KEY AUTOINCREMENT,
            source_key TEXT NOT NULL,
            external_id INTEGER,
            external_media_type TEXT,
            content_type TEXT NOT NULL CHECK (content_type IN ('MOVIE', 'SERIES', 'BOOK')),
            title TEXT NOT NULL,
            original_title TEXT NOT NULL DEFAULT '',
            overview TEXT NOT NULL DEFAULT '',
            original_language TEXT NOT NULL DEFAULT '',
            release_date TEXT NOT NULL DEFAULT '',
            first_air_date TEXT NOT NULL DEFAULT '',
            last_air_date TEXT NOT NULL DEFAULT '',
            runtime_minutes INTEGER,
            episode_runtime_minutes INTEGER,
            external_status TEXT NOT NULL DEFAULT '',
            series_type TEXT NOT NULL DEFAULT '',
            poster_path TEXT NOT NULL DEFAULT '',
            backdrop_path TEXT NOT NULL DEFAULT '',
            homepage_url TEXT NOT NULL DEFAULT '',
            total_seasons INTEGER,
            total_episodes INTEGER,
            metadata_json TEXT NOT NULL DEFAULT '{}',
            metadata_refreshed_at TEXT NOT NULL DEFAULT '',
            created_at TEXT NOT NULL DEFAULT CURRENT_TIMESTAMP,
            updated_at TEXT NOT NULL DEFAULT CURRENT_TIMESTAMP,
            UNIQUE (source_key, external_media_type, external_id)
        );
        INSERT INTO obj_media_title_book_migration (
            id, source_key, external_id, external_media_type, content_type, title,
            original_title, overview, original_language, release_date, first_air_date,
            last_air_date, runtime_minutes, episode_runtime_minutes, external_status,
            series_type, poster_path, backdrop_path, homepage_url, total_seasons,
            total_episodes, metadata_json, metadata_refreshed_at, created_at, updated_at
        )
        SELECT
            id, source_key, external_id, external_media_type, content_type, title,
            original_title, overview, original_language, release_date, first_air_date,
            last_air_date, runtime_minutes, episode_runtime_minutes, external_status,
            series_type, poster_path, backdrop_path, homepage_url, total_seasons,
            total_episodes, metadata_json, metadata_refreshed_at, created_at, updated_at
        FROM obj_media_title;
        DROP TABLE obj_media_title;
        ALTER TABLE obj_media_title_book_migration RENAME TO obj_media_title;
        CREATE INDEX IF NOT EXISTS idx_media_title_search
            ON obj_media_title (title COLLATE NOCASE);
        CREATE INDEX IF NOT EXISTS idx_media_title_source
            ON obj_media_title (source_key, external_media_type, external_id);
        ";

/// Whether a title table, by the statement that created it, already
/// accepts books.
pub open spec fn accepts_books(table_sql: Seq<char>) -> bool {
    contains(upper_ascii(table_sql), "'BOOK'"@)
}

/// Whether the title table must be rebuilt: it exists and does not accept
/// books.
pub fn needs_book_rebuild(table_sql: &Option<String>) -> (r: bool)
    ensures
        r <==> (table_sql matches Some(s) && !accepts_books(s@)),
{
    match table_sql {
        None => false,
        Some(s) => {
            let upper = crate::text::upper_ascii_chars(&crate::text::chars_of(s.as_str()));
            !crate::text::contains_str(&upper, "'BOOK'")
        },
    }
}

pub const TITLE_TABLE_SQL: &'static str = "SELECT sql FROM sqlite_master WHERE type = 'table' AND name = 'obj_media_title'";

pub const FOREIGN_KEYS_OFF_SQL: &'static str = "PRAGMA foreign_keys = OFF;";

pub const BEGIN_REBUILD_SQL: &'static str = "BEGIN IMMEDIATE;";

pub const FOREIGN_KEY_CHECK_SQL: &'static str = "SELECT 1 FROM pragma_foreign_key_check LIMIT 1";

pub const COMMIT_REBUILD_SQL: &'static str = "COMMIT;";

pub const FOREIGN_KEYS_ON_SQL: &'static str = "PRAGMA foreign_keys = ON;";

pub const ROLL_BACK_REBUILD_SQL: &'static str = "ROLLBACK; PRAGMA foreign_keys = ON;";

/// The steps of the title-table rebuild, in order.
#[derive(Clone, Copy, Debug, PartialEq, Eq, Structural)]
pub enum RebuildStage {
    ForeignKeysOff,
    Begin,
    Rebuild,
    Check,
    Commit,
    ForeignKeysOn,
}

/// What follows a step.
#[derive(Clone, Copy, Debug, PartialEq, Eq, Structural)]
pub enum RebuildAction {
    /// Go on with the next step (or finish after the last).
    Continue,
    /// Stop with the step's error.
    Fail,
    /// Turn foreign keys back on, then stop with the step's error.
    RestoreKeysThenFail,
    /// Roll back (which turns foreign keys back on), then stop with the
    /// step's error.
    RollBackThenFail,
    /// Roll back, then refuse the rebuild as an invalid query: a foreign
    /// key was left dangling.
    RollBackThenRefuse,
}

/// The statement a step runs.
pub open spec fn stage_sql(stage: RebuildStage) -> Seq<char> {
    match stage {
        RebuildStage::ForeignKeysOff => FOREIGN_KEYS_OFF_SQL@,
        RebuildStage::Begin => BEGIN_REBUILD_SQL@,
        RebuildStage::Rebuild => BOOK_TITLE_REBUILD@,
        RebuildStage::Check => FOREIGN_KEY_CHECK_SQL@,
        RebuildStage::Commit => COMMIT_REBUILD_SQL@,
        RebuildStage::ForeignKeysOn => FOREIGN_KEYS_ON_SQL@,
    }
}

pub fn stage_statement(stage: RebuildStage) -> (r: &'static str)
    ensures
        r@ == stage_sql(stage),
{
    match stage {
        RebuildStage::ForeignKeysOff => FOREIGN_KEYS_OFF_SQL,
        RebuildStage::Begin => BEGIN_REBUILD_SQL,
        RebuildStage::Rebuild => BOOK_TITLE_REBUILD,
        RebuildStage::Check => FOREIGN_KEY_CHECK_SQL,
        RebuildStage::Commit => COMMIT_REBUILD_SQL,
        RebuildStage::ForeignKeysOn => FOREIGN_KEYS_ON_SQL,
    }
}

/// The step after another; none after the last.
pub open spec fn stage_after(stage: RebuildStage) -> Option<RebuildStage> {
    match stage {
        RebuildStage::ForeignKeysOff => Some(RebuildStage::Begin),
        RebuildStage::Begin => Some(RebuildStage::Rebuild),
        RebuildStage::Rebuild => Some(RebuildStage::Check),
        RebuildStage::Check => Some(RebuildStage::Commit),
        RebuildStage::Commit => Some(RebuildStage::ForeignKeysOn),
        RebuildStage::ForeignKeysOn => None,
    }
}

pub fn next_stage(stage: RebuildStage) -> (r: Option<RebuildStage>)
    ensures
        r == stage_after(stage),
{
    match stage {
        RebuildStage::ForeignKeysOff => Some(RebuildStage::Begin),
        RebuildStage::Begin => Some(RebuildStage::Rebuild),
        RebuildStage::Rebuild => Some(RebuildStage::Check),
        RebuildStage::Check => Some(RebuildStage::Commit),
        RebuildStage::Commit => Some(RebuildStage::ForeignKeysOn),
        RebuildStage::ForeignKeysOn => None,
    }
}

/// What follows a step, from whether it succeeded and (for the check)
/// whether it found a dangling foreign key: a failure before the
/// transaction stops; a failure to begin turns foreign keys back on; a
/// failure inside the transaction, or a dangling key, rolls it back.
pub open spec fn rebuild_action(stage: RebuildStage, succeeded: bool, violation_found: bool) -> RebuildAction {
    if !succeeded {
        match stage {
            RebuildStage::ForeignKeysOff => RebuildAction::Fail,
            RebuildStage::Begin => RebuildAction::RestoreKeysThenFail,
            RebuildStage::ForeignKeysOn => RebuildAction::Fail,
            _ => RebuildAction::RollBackThenFail,
        }
    } else if stage == RebuildStage::Check && violation_found {
        RebuildAction::RollBackThenRefuse
    } else {
        RebuildAction::Continue
    }
}

pub fn after_rebuild_step(stage: RebuildStage, succeeded: bool, violation_found: bool) -> (r: RebuildAction)
    ensures
        r == rebuild_action(stage, succeeded, violation_found),
{
    if !succeeded {
        match stage {
            RebuildStage::ForeignKeysOff => RebuildAction::Fail,
            RebuildStage::Begin => RebuildAction::RestoreKeysThenFail,
            RebuildStage::ForeignKeysOn => RebuildAction::Fail,
            _ => RebuildAction::RollBackThenFail,
        }
    } else if stage == RebuildStage::Check && violation_found {
        RebuildAction::RollBackThenRefuse
    } else {
        RebuildAction::Continue
    }
}

/// Runs one step: the check reads whether a dangling key exists, the
/// others run their statements.
fn run_stage(connection: &rusqlite::Connection, stage: RebuildStage) -> (r: Result<bool, rusqlite::Error>)
    ensures
        stage != RebuildStage::Check ==> (r matches Ok(v) ==> !v),
{
    let sql = stage_statement(stage);
    if stage == RebuildStage::Check {
        let none: Vec<SqlParam> = Vec::new();
        match sql_optional_i64(connection, sql, &none) {
            Ok(v) => Ok(v.is_some()),
            Err(e) => Err(e),
        }
    } else {
        match sql_execute_batch(connection, sql) {
            Ok(()) => Ok(false),
            Err(e) => Err(e),
        }
    }
}

/// Rebuilds the title table of a library made before books existed, in
/// one transaction with foreign keys off, step by step (`stage_sql`, in
/// the order of `stage_after`), each outcome handled as `rebuild_action`
/// says. A missing table, or one that accepts books already
/// (`needs_book_rebuild`), is left alone.
pub fn migrate_media_title_book_constraint(connection: &rusqlite::Connection) -> (r: Result<
    (),
    rusqlite::Error,
>) {
    let none: Vec<SqlParam> = Vec::new();
    let table_sql = match sql_optional_text(connection, TITLE_TABLE_SQL, &none) {
        Ok(s) => s,
        Err(e) => return Err(e),
    };
    if !needs_book_rebuild(&table_sql) {
        return Ok(());
    }
    let mut stage = RebuildStage::ForeignKeysOff;
    loop
        decreases 6 - (match stage {
            RebuildStage::ForeignKeysOff => 0int,
            RebuildStage::Begin => 1int,
            RebuildStage::Rebuild => 2int,
            RebuildStage::Check => 3int,
            RebuildStage::Commit => 4int,
            RebuildStage::ForeignKeysOn => 5int,
        }),
    {
        let outcome = run_stage(connection, stage);
        let (succeeded, violation_found) = match &outcome {
            Ok(v) => (true, *v),
            Err(_) => (false, false),
        };
        match after_rebuild_step(stage, succeeded, violation_found) {
            RebuildAction::Continue => {},
            RebuildAction::Fail => return outcome_error(outcome),
            RebuildAction::RestoreKeysThenFail => {
                let _ = sql_execute_batch(connection, FOREIGN_KEYS_ON_SQL);
                return outcome_error(outcome);
            },
            RebuildAction::RollBackThenFail => {
                let _ = sql_execute_batch(connection, ROLL_BACK_REBUILD_SQL);
                return outcome_error(outcome);
            },
            RebuildAction::RollBackThenRefuse => {
                let _ = sql_execute_batch(connection, ROLL_BACK_REBUILD_SQL);
                return Err(invalid_query_error());
            },
        }
        match next_stage(stage) {
            Some(next) => stage = next,
            None => return Ok(()),
        }
    }
}

/// The error of a failed step.
fn outcome_error(outcome: Result<bool, rusqlite::Error>) -> (r: Result<(), rusqlite::Error>)
    requires
        outcome is Err,
    ensures
        r is Err,
{
    match outcome {
        Ok(_) => Ok(()),
        Err(e) => Err(e),
    }
}

/// Brings the book tables up to date: the title table first, then the
/// book tables.
pub fn migrate_book_schema(connection: &rusqlite::Connection) -> (r: Result<(), rusqlite::Error>) {
    match migrate_media_title_book_constraint(connection) {
        Ok(()) => {},
        Err(e) => return Err(e),
    }
    sql_execute_batch(connection, BOOK_SCHEMA)
}

/// Brings the whole media library's tables up to date.
pub fn migrate_schema(connection: &rusqlite::Connection) -> (r: Result<(), rusqlite::Error>) {
    match sql_execute_batch(connection, MEDIA_SCHEMA) {
        Ok(()) => {},
        Err(e) => return Err(e),
    }
    migrate_book_schema(connection)
}

} // verus!
