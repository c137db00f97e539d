use overlay_forge::media_import::{duplicate_refusal, fetch_arguments};
use overlay_forge::media_schema::{after_rebuild_step, RebuildAction, RebuildStage};
use overlay_forge::database::AppDatabase;
use overlay_forge::media::{
    AddCatalogMediaInput, MediaCatalogSearchResult, MediaContentType, MediaError, MediaErrorKind,
    MediaLibraryStatus, MediaStreamingLinkInput, NormalizedMediaEpisode, NormalizedMediaImport,
    NormalizedMediaSeason, NormalizedMediaTitle, NormalizedProviderAvailability,
    NormalizedProviderSnapshot,
};
use overlay_forge::media_import::{added_episodes, duplicate_entry_error};
use overlay_forge::media_repository::{load_seasons, MediaRepository};
use overlay_forge::media_schema::{migrate_media_title_book_constraint, migrate_schema, needs_book_rebuild};
use overlay_forge::media_service::{MediaCatalogService, MediaMetadataProvider};
use std::cell::RefCell;

fn episode(external_id: i64, season: i64, number: i64) -> NormalizedMediaEpisode {
    NormalizedMediaEpisode {
        external_id: Some(external_id),
        season_number: season,
        episode_number: number,
        name: format!("S{season}E{number}"),
        overview: String::new(),
        air_date: format!("2026-01-{:02}", number.clamp(1, 28)),
        runtime_minutes: Some(45),
        still_path: String::new(),
        metadata_json: "{}".to_string(),
    }
}

fn series_import(include_third_regular_episode: bool) -> NormalizedMediaImport {
    let mut regular_episodes = vec![episode(101, 1, 1), episode(102, 1, 2)];
    if include_third_regular_episode {
        regular_episodes.push(episode(103, 1, 3));
    }
    NormalizedMediaImport {
        title: NormalizedMediaTitle {
            source_key: "tmdb".to_string(),
            external_id: Some(42),
            external_media_type: Some("tv".to_string()),
            content_type: MediaContentType::Series,
            title: "Test Series".to_string(),
            original_title: "Test Series".to_string(),
            overview: "A test series.".to_string(),
            original_language: "en".to_string(),
            release_date: String::new(),
            first_air_date: "2026-01-01".to_string(),
            last_air_date: "2026-01-03".to_string(),
            runtime_minutes: None,
            episode_runtime_minutes: Some(45),
            external_status: "Returning Series".to_string(),
            series_type: "Scripted".to_string(),
            poster_path: "/poster.jpg".to_string(),
            backdrop_path: String::new(),
            homepage_url: String::new(),
            total_seasons: Some(1),
            total_episodes: Some(if include_third_regular_episode { 4 } else { 3 }),
            metadata_json: "{}".to_string(),
        },
        seasons: vec![
            NormalizedMediaSeason {
                external_id: Some(400),
                season_number: 0,
                name: "Specials".to_string(),
                overview: String::new(),
                air_date: String::new(),
                poster_path: String::new(),
                episode_count: 1,
                metadata_json: "{}".to_string(),
                episodes: vec![episode(100, 0, 1)],
            },
            NormalizedMediaSeason {
                external_id: Some(401),
                season_number: 1,
                name: "Season 1".to_string(),
                overview: String::new(),
                air_date: "2026-01-01".to_string(),
                poster_path: String::new(),
                episode_count: regular_episodes.len() as i64,
                metadata_json: "{}".to_string(),
                episodes: regular_episodes,
            },
        ],
        provider_snapshot: Some(NormalizedProviderSnapshot {
            region_code: "CA".to_string(),
            source_link_url: "https://www.themoviedb.org/tv/42/watch".to_string(),
            providers: vec![NormalizedProviderAvailability {
                provider_external_id: 8,
                provider_name: "Example Stream".to_string(),
                provider_logo_path: "/provider.jpg".to_string(),
                monetization_type: "FLATRATE".to_string(),
                display_priority: 1,
            }],
        }),
        provider_error: None,
    }
}

fn database() -> AppDatabase {
    let connection = rusqlite::Connection::open_in_memory().expect("connection");
    migrate_schema(&connection).expect("schema should migrate");
    AppDatabase::new(connection)
}

fn value<T: rusqlite::types::FromSql>(db: &AppDatabase, sql: &str, entry_id: i64) -> T {
    db.connection().query_row(sql, [entry_id], |row| row.get(0)).unwrap()
}

#[test]
fn schema_and_external_identity_prevent_duplicate_catalog_entries() {
    let database = database();
    let repository = MediaRepository::new(&database);
    {
        let connection = database.connection();
        for table in [
            "obj_media_title",
            "obj_media_library_entry",
            "obj_media_season",
            "obj_media_episode",
            "obj_media_episode_progress",
            "obj_media_provider_snapshot",
            "obj_media_provider_availability",
            "obj_media_streaming_link",
            "obj_media_tag",
            "n2n_media_library_entry_tag",
            "obj_media_setting",
        ] {
            let exists: i64 = connection
                .query_row(
                    "SELECT COUNT(*) FROM sqlite_master WHERE type = 'table' AND name = ?1",
                    [table],
                    |row| row.get(0),
                )
                .expect("schema query should work");
            assert_eq!(exists, 1, "{table} should exist");
        }
    }
    repository
        .add_catalog_import(&series_import(false), MediaLibraryStatus::Planned)
        .expect("first import should work");
    let duplicate = repository
        .add_catalog_import(&series_import(false), MediaLibraryStatus::Planned)
        .expect_err("duplicate should be rejected");
    assert_eq!(duplicate.kind, MediaErrorKind::Duplicate);
}

#[test]
fn refresh_preserves_user_owned_state_and_old_provider_rows() {
    let database = database();
    let repository = MediaRepository::new(&database);
    let entry = repository
        .add_catalog_import(&series_import(false), MediaLibraryStatus::Watching)
        .expect("series should import");
    database
        .connection()
        .execute(
            "UPDATE obj_media_library_entry SET library_status='WATCHING', is_favorite=1, personal_rating=9.0, notes='Keep this note', priority=7 WHERE id=?1",
            [entry],
        )
        .expect("entry should update");
    repository.add_to_watch_next(entry).expect("queue should update");
    let tag = repository.create_tag("Comfort").expect("tag should create");
    repository.set_entry_tags(entry, &[tag.id]).expect("tag should attach");
    repository
        .create_streaming_link(
            entry,
            &MediaStreamingLinkInput {
                provider_name: "My Service".to_string(),
                url: "https://example.com/watch".to_string(),
                link_type: "STREAM".to_string(),
                is_preferred: true,
                notes: "Keep this link".to_string(),
            },
        )
        .expect("manual link should create");
    let status = repository.set_season_watched(entry, 1, true).expect("regular season should complete");
    assert_eq!(status, MediaLibraryStatus::Completed);

    repository.refresh_import(entry, &series_import(true)).expect("refresh should work");
    let status: String = value(&database, "SELECT library_status FROM obj_media_library_entry WHERE id=?1", entry);
    assert_eq!(status, "WATCHING");
    let new_episodes: i64 = value(&database, "SELECT new_episodes_count FROM obj_media_library_entry WHERE id=?1", entry);
    assert_eq!(new_episodes, 1);
    let notes: String = value(&database, "SELECT notes FROM obj_media_library_entry WHERE id=?1", entry);
    assert_eq!(notes, "Keep this note");
    let rating: Option<f64> = value(&database, "SELECT personal_rating FROM obj_media_library_entry WHERE id=?1", entry);
    assert_eq!(rating, Some(9.0));
    let favorite: i64 = value(&database, "SELECT is_favorite FROM obj_media_library_entry WHERE id=?1", entry);
    assert_eq!(favorite, 1);
    let priority: i64 = value(&database, "SELECT priority FROM obj_media_library_entry WHERE id=?1", entry);
    assert_eq!(priority, 7);
    let queue: Option<i64> = value(&database, "SELECT queue_position FROM obj_media_library_entry WHERE id=?1", entry);
    assert_eq!(queue, Some(1));
    let tag_name: String = value(
        &database,
        "SELECT tag.name FROM obj_media_tag tag JOIN n2n_media_library_entry_tag m ON m.media_tag_id = tag.id WHERE m.media_library_entry_id=?1",
        entry,
    );
    assert_eq!(tag_name, "Comfort");
    assert_eq!(repository.list_streaming_links(entry).unwrap()[0].url, "https://example.com/watch");
    let title_id: i64 = value(&database, "SELECT media_title_id FROM obj_media_library_entry WHERE id=?1", entry);
    let seasons = load_seasons(database.connection(), title_id, false).unwrap();
    assert!(seasons[1].episodes[0].is_watched);
    assert!(seasons[1].episodes[1].is_watched);
    assert!(!seasons[1].episodes[2].is_watched);

    let mut failed_availability_import = series_import(true);
    failed_availability_import.provider_snapshot = None;
    failed_availability_import.provider_error = Some("Network: temporary provider error".to_string());
    repository
        .refresh_import(entry, &failed_availability_import)
        .expect("metadata refresh should retain old provider rows");
    let providers: i64 = value(
        &database,
        "SELECT COUNT(*) FROM obj_media_provider_availability a JOIN obj_media_provider_snapshot s ON s.id = a.snapshot_id WHERE s.media_title_id=?1",
        title_id,
    );
    assert_eq!(providers, 1);
    let snapshot_status: String = value(
        &database,
        "SELECT last_refresh_status FROM obj_media_provider_snapshot WHERE media_title_id=?1",
        title_id,
    );
    assert_eq!(snapshot_status, "FAILED");
}

const PRE_BOOK_SCHEMA: &str = "
    PRAGMA foreign_keys=ON;
    CREATE TABLE obj_media_title (
        id INTEGER PRIMARY KEY AUTOINCREMENT,
        source_key TEXT NOT NULL, external_id INTEGER, external_media_type TEXT,
        content_type TEXT NOT NULL CHECK(content_type IN ('MOVIE','SERIES')),
        title TEXT NOT NULL, original_title TEXT NOT NULL DEFAULT '', overview TEXT NOT NULL DEFAULT '',
        original_language TEXT NOT NULL DEFAULT '', release_date TEXT NOT NULL DEFAULT '',
        first_air_date TEXT NOT NULL DEFAULT '', last_air_date TEXT NOT NULL DEFAULT '',
        runtime_minutes INTEGER, episode_runtime_minutes INTEGER, external_status TEXT NOT NULL DEFAULT '',
        series_type TEXT NOT NULL DEFAULT '', poster_path TEXT NOT NULL DEFAULT '', backdrop_path TEXT NOT NULL DEFAULT '',
        homepage_url TEXT NOT NULL DEFAULT '', total_seasons INTEGER, total_episodes INTEGER,
        metadata_json TEXT NOT NULL DEFAULT '{}', metadata_refreshed_at TEXT NOT NULL DEFAULT '',
        created_at TEXT NOT NULL DEFAULT CURRENT_TIMESTAMP, updated_at TEXT NOT NULL DEFAULT CURRENT_TIMESTAMP,
        UNIQUE(source_key,external_media_type,external_id)
    );
    CREATE TABLE dependent (
        id INTEGER PRIMARY KEY, media_title_id INTEGER NOT NULL,
        FOREIGN KEY(media_title_id) REFERENCES obj_media_title(id) ON DELETE CASCADE
    );
    INSERT INTO obj_media_title (id,source_key,external_id,external_media_type,content_type,title)
    VALUES (41,'tmdb',99,'movie','MOVIE','Existing Movie');
    INSERT INTO obj_media_title (id,source_key,external_id,external_media_type,content_type,title)
    VALUES (42,'tmdb',100,'tv','SERIES','Existing Series');
    INSERT INTO dependent (id,media_title_id) VALUES (1,41);
    INSERT INTO dependent (id,media_title_id) VALUES (2,42);
";

#[test]
fn populated_pre_book_schema_rebuild_preserves_ids_and_foreign_keys() {
    let connection = rusqlite::Connection::open_in_memory().expect("connection");
    connection.execute_batch(PRE_BOOK_SCHEMA).expect("pre-book schema");

    migrate_media_title_book_constraint(&connection).expect("migration should succeed");
    migrate_media_title_book_constraint(&connection).expect("migration should be idempotent");
    let preserved = connection
        .prepare(
            "SELECT id,source_key,external_id,external_media_type,content_type,title
             FROM obj_media_title ORDER BY id",
        )
        .expect("preservation query")
        .query_map([], |row| {
            Ok((
                row.get::<_, i64>(0)?,
                row.get::<_, String>(1)?,
                row.get::<_, i64>(2)?,
                row.get::<_, String>(3)?,
                row.get::<_, String>(4)?,
                row.get::<_, String>(5)?,
            ))
        })
        .expect("preserved titles")
        .collect::<rusqlite::Result<Vec<_>>>()
        .expect("preserved rows");
    assert_eq!(
        preserved,
        vec![
            (41, "tmdb".to_string(), 99, "movie".to_string(), "MOVIE".to_string(), "Existing Movie".to_string()),
            (42, "tmdb".to_string(), 100, "tv".to_string(), "SERIES".to_string(), "Existing Series".to_string()),
        ]
    );
    connection
        .execute(
            "INSERT INTO obj_media_title (source_key,external_media_type,content_type,title) VALUES ('manual','book','BOOK','Book')",
            [],
        )
        .expect("BOOK should be accepted");
    let violations: i64 = connection
        .query_row("SELECT COUNT(*) FROM pragma_foreign_key_check", [], |row| row.get(0))
        .expect("foreign key check");
    assert_eq!(violations, 0);
}

#[test]
fn failed_book_constraint_rebuild_rolls_back_without_losing_titles() {
    let connection = rusqlite::Connection::open_in_memory().expect("connection");
    connection
        .execute_batch(
            "
            PRAGMA foreign_keys=ON;
            CREATE TABLE obj_media_title (
                id INTEGER PRIMARY KEY AUTOINCREMENT,
                source_key TEXT NOT NULL,
                external_id INTEGER,
                external_media_type TEXT,
                content_type TEXT NOT NULL CHECK(content_type IN ('MOVIE','SERIES')),
                title TEXT NOT NULL
            );
            INSERT INTO obj_media_title
                (id,source_key,external_id,external_media_type,content_type,title)
            VALUES (41,'tmdb',99,'movie','MOVIE','Existing Movie');
            ",
        )
        .expect("intentionally incomplete pre-book schema");

    assert!(migrate_media_title_book_constraint(&connection).is_err());
    let preserved: (i64, String) = connection
        .query_row("SELECT id,title FROM obj_media_title", [], |row| Ok((row.get(0)?, row.get(1)?)))
        .expect("original table should remain");
    assert_eq!(preserved, (41, "Existing Movie".to_string()));
    let temporary_table_count: i64 = connection
        .query_row(
            "SELECT COUNT(*) FROM sqlite_master
             WHERE type='table' AND name='obj_media_title_book_migration'",
            [],
            |row| row.get(0),
        )
        .expect("temporary table query");
    assert_eq!(temporary_table_count, 0);
    let foreign_keys_enabled: i64 = connection
        .query_row("PRAGMA foreign_keys", [], |row| row.get(0))
        .expect("foreign key state");
    assert_eq!(foreign_keys_enabled, 1);
}

#[test]
fn title_tables_are_rebuilt_only_when_books_are_refused() {
    assert!(!needs_book_rebuild(&None));
    assert!(needs_book_rebuild(&Some("CHECK (content_type IN ('MOVIE','SERIES'))".to_string())));
    assert!(!needs_book_rebuild(&Some("check (content_type in ('movie','series','book'))".to_string())));
}

#[test]
fn duplicates_and_new_episodes_are_reported() {
    let error = duplicate_entry_error(12);
    assert_eq!(error.kind, MediaErrorKind::Duplicate);
    assert_eq!(error.message, "This title is already in the library (entry 12).");
    assert_eq!(added_episodes(true, 2, 3), Some(1));
    assert_eq!(added_episodes(false, 2, 3), None);
    assert_eq!(added_episodes(true, 3, 3), None);
    assert_eq!(added_episodes(true, 3, 1), None);
}

/// A provider that answers from memory and records what it was asked.
struct FixedProvider {
    import: Option<NormalizedMediaImport>,
    asked: RefCell<Vec<(i64, String, String, String)>>,
}

impl MediaMetadataProvider for FixedProvider {
    fn search(&self, _query: &str, _language: &str) -> Result<Vec<MediaCatalogSearchResult>, MediaError> {
        Ok(Vec::new())
    }

    fn fetch_import(
        &self,
        external_id: i64,
        external_media_type: &str,
        language: &str,
        region: &str,
    ) -> Result<NormalizedMediaImport, MediaError> {
        self.asked.borrow_mut().push((
            external_id,
            external_media_type.to_string(),
            language.to_string(),
            region.to_string(),
        ));
        self.import.clone().ok_or(MediaError {
            kind: MediaErrorKind::Network,
            message: "offline".to_string(),
        })
    }
}

#[test]
fn catalog_titles_are_added_once_and_refresh_failures_recorded() {
    let database = database();
    let service = MediaCatalogService::new(&database);
    let provider = FixedProvider { import: Some(series_import(false)), asked: RefCell::new(Vec::new()) };
    let input = AddCatalogMediaInput {
        external_id: 42,
        external_media_type: "tv".to_string(),
        library_status: MediaLibraryStatus::Planned,
    };
    let entry = service.add_catalog_title(&provider, &input).expect("title should be added").entry.row.id;
    assert_eq!(
        provider.asked.borrow()[0],
        (42, "tv".to_string(), "en-CA".to_string(), "CA".to_string())
    );
    let duplicate = service.add_catalog_title(&provider, &input).unwrap_err();
    assert_eq!(duplicate.message, format!("This title is already in the library (entry {entry})."));
    assert_eq!(provider.asked.borrow().len(), 1);

    service.refresh(&provider, entry).expect("refresh should work");
    let offline = FixedProvider { import: None, asked: RefCell::new(Vec::new()) };
    let error = service.refresh(&offline, entry).unwrap_err();
    assert_eq!(error.kind, MediaErrorKind::Network);
    let recorded: String = value(
        &database,
        "SELECT snapshot.last_refresh_error FROM obj_media_provider_snapshot snapshot JOIN obj_media_library_entry entry ON entry.media_title_id = snapshot.media_title_id WHERE entry.id=?1",
        entry,
    );
    assert_eq!(recorded, "Network: offline");
}

#[test]
fn summaries_find_the_next_episode_services_and_fresh_availability() {
    let database = database();
    let repository = MediaRepository::new(&database);
    let entry = repository
        .add_catalog_import(&series_import(false), MediaLibraryStatus::Watching)
        .expect("series should import");
    let title_id: i64 = value(&database, "SELECT media_title_id FROM obj_media_library_entry WHERE id = ?1", entry);
    let (next, providers, stale) = overlay_forge::media_summary::summary_lookups(
        database.connection(),
        title_id,
        MediaContentType::Series,
        false,
    )
    .expect("lookups work");
    let next = next.expect("an unwatched episode is next");
    assert_eq!((next.season_number, next.episode_number), (1, 1));
    assert_eq!(providers.len(), 1);
    assert_eq!(providers[0].provider_name, "Example Stream");
    assert!(!stale);
    let (with_specials, _, _) = overlay_forge::media_summary::summary_lookups(
        database.connection(),
        title_id,
        MediaContentType::Series,
        true,
    )
    .expect("lookups work");
    assert_eq!(with_specials.expect("a special is next").season_number, 0);
    let (movie_next, _, _) = overlay_forge::media_summary::summary_lookups(
        database.connection(),
        title_id,
        MediaContentType::Movie,
        false,
    )
    .expect("lookups work");
    assert!(movie_next.is_none());
}

#[test]
fn library_list_summarises_each_entry_with_its_lookups() {
    let database = database();
    let repository = MediaRepository::new(&database);
    let entry = repository
        .add_catalog_import(&series_import(false), MediaLibraryStatus::Watching)
        .expect("series should import");
    let filter = overlay_forge::media::MediaLibraryFilter {
        query: String::new(),
        content_type: None,
        library_status: None,
        is_favorite: None,
        tag_id: None,
        has_unwatched: None,
        provider_name: String::new(),
        is_watch_next: None,
        sort: "TITLE".to_string(),
        sort_direction: "ASC".to_string(),
        limit: 50,
        offset: 0,
    };
    let items = repository.list_library(&filter).expect("list works");
    assert_eq!(items.len(), 1);
    let summary = &items[0];
    assert_eq!(summary.row.id, entry);
    assert_eq!(summary.content_type, MediaContentType::Series);
    assert_eq!(summary.library_status, MediaLibraryStatus::Watching);
    assert!(!summary.movie_watched);
    assert_eq!(summary.watched_count, 0);
    assert!(summary.progress_total > 0);
    assert_eq!(summary.progress_total, summary.row.progress_total);
    let next = summary.next_episode.as_ref().expect("next episode");
    assert_eq!((next.season_number, next.episode_number), (1, 1));
    assert_eq!(summary.subscription_providers.len(), 1);
    assert!(!summary.availability_is_stale);
    let mut movies = filter.clone();
    movies.content_type = Some(MediaContentType::Movie);
    assert!(repository.list_library(&movies).expect("list works").is_empty());
}

#[test]
fn entry_detail_gathers_seasons_tags_links_and_availability() {
    let database = database();
    let repository = MediaRepository::new(&database);
    let entry = repository
        .add_catalog_import(&series_import(false), MediaLibraryStatus::Watching)
        .expect("series should import");
    let detail = repository.get_detail(entry).expect("detail");
    assert_eq!(detail.entry.row.id, entry);
    assert!(!detail.seasons.is_empty());
    assert!(detail.tags.is_empty());
    assert!(detail.streaming_links.is_empty());
    assert_eq!(detail.settings.region_code, "CA");
    let snapshot = detail.provider_snapshot.expect("snapshot for the region");
    assert_eq!(snapshot.last_refresh_status, "SUCCESS");
    assert_eq!(detail.providers.len(), 1);
    let missing = repository.get_detail(entry + 100).err().expect("missing entry");
    assert_eq!(missing.kind, MediaErrorKind::NotFound);
}

#[test]
fn catalog_decisions_refuse_duplicates_and_pass_provider_errors_through() {
    assert!(duplicate_refusal(None).is_ok());
    let refused = duplicate_refusal(Some(7)).expect_err("duplicate");
    assert_eq!(refused.kind, MediaErrorKind::Duplicate);
    assert_eq!(refused.message, "This title is already in the library (entry 7).");
    let settings = overlay_forge::media::MediaSettingsRecord {
        region_code: "GB".to_string(),
        metadata_language: "en-GB".to_string(),
        include_specials_in_completion: false,
        updated_at: String::new(),
    };
    let args = fetch_arguments(42, "tv", &settings);
    assert_eq!((args.external_id, args.external_media_type.as_str()), (42, "tv"));
    assert_eq!((args.language.as_str(), args.region.as_str()), ("en-GB", "GB"));
    let database = database();
    let service = MediaCatalogService::new(&database);
    let error = overlay_forge::media::MediaError::new(MediaErrorKind::Network, "offline".to_string());
    let passed = service
        .apply_catalog_add(Err(error), MediaLibraryStatus::Planned)
        .expect_err("provider error");
    assert_eq!((passed.kind, passed.message.as_str()), (MediaErrorKind::Network, "offline"));
}

#[test]
fn title_rebuild_steps_roll_back_on_failure_and_refuse_dangling_keys() {
    assert_eq!(after_rebuild_step(RebuildStage::ForeignKeysOff, false, false), RebuildAction::Fail);
    assert_eq!(after_rebuild_step(RebuildStage::Begin, false, false), RebuildAction::RestoreKeysThenFail);
    assert_eq!(after_rebuild_step(RebuildStage::Rebuild, false, false), RebuildAction::RollBackThenFail);
    assert_eq!(after_rebuild_step(RebuildStage::Check, true, true), RebuildAction::RollBackThenRefuse);
    assert_eq!(after_rebuild_step(RebuildStage::Check, true, false), RebuildAction::Continue);
    assert_eq!(after_rebuild_step(RebuildStage::Commit, false, false), RebuildAction::RollBackThenFail);
    assert_eq!(after_rebuild_step(RebuildStage::ForeignKeysOn, false, false), RebuildAction::Fail);
}
