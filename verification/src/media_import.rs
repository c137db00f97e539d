//! Storing what a metadata provider returned for a title: the title row,
//! its seasons and episodes, and its streaming availability; on a refresh,
//! the count of new episodes and the series status are brought up to date.
use crate::database::{
    is_database_error, lookup_outcome, sql_begin, sql_commit, sql_execute, sql_i64_value, sql_in,
    sql_last_insert_rowid, sql_optional_i64, sql_text_value, SqlParam,
};
use crate::media::{
    MediaSettingsRecord,
    AddCatalogMediaInput, MediaContentType, MediaError, MediaErrorKind, MediaLibraryStatus,
    NormalizedMediaEpisode, NormalizedMediaImport, NormalizedMediaSeason,
    NormalizedProviderAvailability, DEFAULT_MEDIA_REGION,
};
use crate::media_progress::{check, one, two};
use crate::media_repository::{database_or_not_found, MediaRepository};
use crate::media_service::{MediaCatalogService, MediaMetadataProvider};
use crate::text::{chars_of, extend_chars, extend_str, i64_to_decimal, signed_decimal, string_of};
use crate::media::NormalizedMediaTitle;
use crate::media::NormalizedProviderSnapshot;
use crate::media_query::{int_arg, params_view, text_arg};
use crate::statements::{
    int_pair_statement, int_param, int_statement, owned_text_param, opt_int_arg, opt_int_param, opt_text_arg, opt_text_param,
    run_statement, statement_view, text_param, SqlStatement,
};
use vstd::prelude::*;

verus! {

/// The message of an import whose title already has a library entry.
pub open spec fn duplicate_message(existing_id: i64) -> Seq<char> {
    "This title is already in the library (entry "@ + signed_decimal(existing_id as int) + ")."@
}

/// The error of an import whose title already has a library entry.
pub fn duplicate_entry_error(existing_id: i64) -> (r: MediaError)
    ensures
        r.kind == MediaErrorKind::Duplicate,
        r.message@ == duplicate_message(existing_id),
{
    let mut m = chars_of("This title is already in the library (entry ");
    extend_chars(&mut m, &i64_to_decimal(existing_id));
    extend_str(&mut m, ").");
    MediaError::new(MediaErrorKind::Duplicate, string_of(&m))
}

/// How many new episodes a refresh brought: counted only on a refresh that
/// grew the number of included episodes.
pub fn added_episodes(is_refresh: bool, old_total: i64, new_total: i64) -> (r: Option<i64>)
    ensures
        r is Some <==> is_refresh && new_total > old_total && new_total - old_total <= i64::MAX,
        r matches Some(d) ==> d == new_total - old_total,
{
    if is_refresh && new_total > old_total {
        new_total.checked_sub(old_total)
    } else {
        None
    }
}

/// What an import can fail with while it is stored.
pub open spec fn import_error(e: MediaError) -> bool {
    database_or_not_found(e, "Series library entry was not found."@) || e.kind
        == MediaErrorKind::Validation
}

pub const UPSERT_TITLE_SQL: &'static str = "
            INSERT INTO obj_media_title (
                source_key, external_id, external_media_type, content_type, title,
                original_title, overview, original_language, release_date, first_air_date,
                last_air_date, runtime_minutes, episode_runtime_minutes, external_status,
                series_type, poster_path, backdrop_path, homepage_url, total_seasons,
                total_episodes, metadata_json, metadata_refreshed_at
            )
            VALUES (
                ?1, ?2, ?3, ?4, ?5, ?6, ?7, ?8, ?9, ?10, ?11, ?12, ?13, ?14,
                ?15, ?16, ?17, ?18, ?19, ?20, ?21, datetime('now', 'localtime')
            )
            ON CONFLICT (source_key, external_media_type, external_id) DO UPDATE SET
                content_type = excluded.content_type,
                title = excluded.title,
                original_title = excluded.original_title,
                overview = excluded.overview,
                original_language = excluded.original_language,
                release_date = excluded.release_date,
                first_air_date = excluded.first_air_date,
                last_air_date = excluded.last_air_date,
                runtime_minutes = excluded.runtime_minutes,
                episode_runtime_minutes = excluded.episode_runtime_minutes,
                external_status = excluded.external_status,
                series_type = excluded.series_type,
                poster_path = excluded.poster_path,
                backdrop_path = excluded.backdrop_path,
                homepage_url = excluded.homepage_url,
                total_seasons = excluded.total_seasons,
                total_episodes = excluded.total_episodes,
                metadata_json = excluded.metadata_json,
                metadata_refreshed_at = datetime('now', 'localtime'),
                updated_at = datetime('now', 'localtime')
            ";

pub const TITLE_BY_IDENTITY_SQL: &'static str = "
                SELECT id FROM obj_media_title
                WHERE source_key = ?1 AND external_media_type = ?2 AND external_id = ?3
                ";

pub const ENTRY_OF_TITLE_SQL: &'static str = "SELECT id FROM obj_media_library_entry WHERE media_title_id = ?1";

pub const INSERT_CATALOG_ENTRY_SQL: &'static str = "
            INSERT INTO obj_media_library_entry (media_title_id, library_status)
            VALUES (?1, ?2)
            ";

/// The stored columns of an imported title, in statement order.
pub open spec fn title_args(t: NormalizedMediaTitle) -> Seq<(u8, i64, Seq<char>)> {
    seq![
        text_arg(t.source_key@),
        opt_int_arg(t.external_id),
        opt_text_arg(t.external_media_type),
        text_arg(t.content_type.label()),
        text_arg(t.title@),
        text_arg(t.original_title@),
        text_arg(t.overview@),
        text_arg(t.original_language@),
        text_arg(t.release_date@),
        text_arg(t.first_air_date@),
        text_arg(t.last_air_date@),
        opt_int_arg(t.runtime_minutes),
        opt_int_arg(t.episode_runtime_minutes),
        text_arg(t.external_status@),
        text_arg(t.series_type@),
        text_arg(t.poster_path@),
        text_arg(t.backdrop_path@),
        text_arg(t.homepage_url@),
        opt_int_arg(t.total_seasons),
        opt_int_arg(t.total_episodes),
        text_arg(t.metadata_json@),
    ]
}

/// The statement that inserts an imported title, or updates the title with
/// the same source key, media type and external id.
pub fn upsert_title_statement(t: &NormalizedMediaTitle) -> (r: SqlStatement)
    ensures
        statement_view(r) == (UPSERT_TITLE_SQL@, title_args(*t)),
{
    let mut p: Vec<SqlParam> = Vec::new();
    p.push(text_param(t.source_key.as_str()));
    p.push(opt_int_param(t.external_id));
    p.push(opt_text_param(&t.external_media_type));
    p.push(text_param(t.content_type.as_str()));
    p.push(text_param(t.title.as_str()));
    p.push(text_param(t.original_title.as_str()));
    p.push(text_param(t.overview.as_str()));
    p.push(text_param(t.original_language.as_str()));
    p.push(text_param(t.release_date.as_str()));
    p.push(text_param(t.first_air_date.as_str()));
    p.push(text_param(t.last_air_date.as_str()));
    p.push(opt_int_param(t.runtime_minutes));
    p.push(opt_int_param(t.episode_runtime_minutes));
    p.push(text_param(t.external_status.as_str()));
    p.push(text_param(t.series_type.as_str()));
    p.push(text_param(t.poster_path.as_str()));
    p.push(text_param(t.backdrop_path.as_str()));
    p.push(text_param(t.homepage_url.as_str()));
    p.push(opt_int_param(t.total_seasons));
    p.push(opt_int_param(t.total_episodes));
    p.push(text_param(t.metadata_json.as_str()));
    let r = SqlStatement { sql: UPSERT_TITLE_SQL, params: p };
    assert(params_view(r.params@) =~= title_args(*t));
    r
}

/// The query for the id of the title with this source identity.
pub fn title_identity_statement(t: &NormalizedMediaTitle) -> (r: SqlStatement)
    ensures
        statement_view(r) == (
            TITLE_BY_IDENTITY_SQL@,
            seq![text_arg(t.source_key@), opt_text_arg(t.external_media_type), opt_int_arg(t.external_id)],
        ),
{
    let mut p: Vec<SqlParam> = Vec::new();
    p.push(text_param(t.source_key.as_str()));
    p.push(opt_text_param(&t.external_media_type));
    p.push(opt_int_param(t.external_id));
    let r = SqlStatement { sql: TITLE_BY_IDENTITY_SQL, params: p };
    assert(params_view(r.params@) =~= seq![
        text_arg(t.source_key@),
        opt_text_arg(t.external_media_type),
        opt_int_arg(t.external_id),
    ]);
    r
}

/// The statement that adds a library entry for a title with a status.
pub fn catalog_entry_statement(title_id: i64, status: MediaLibraryStatus) -> (r: SqlStatement)
    ensures
        statement_view(r) == (
            INSERT_CATALOG_ENTRY_SQL@,
            seq![int_arg(title_id), text_arg(status.label())],
        ),
{
    let mut p: Vec<SqlParam> = Vec::new();
    p.push(int_param(title_id));
    p.push(text_param(status.as_str()));
    let r = SqlStatement { sql: INSERT_CATALOG_ENTRY_SQL, params: p };
    assert(params_view(r.params@) =~= seq![int_arg(title_id), text_arg(status.label())]);
    r
}

/// A title that already has a library entry is refused, naming the entry;
/// one without is not.
pub fn not_yet_in_library(existing: Option<i64>) -> (r: Result<(), MediaError>)
    ensures
        existing is None <==> r is Ok,
        existing matches Some(id) ==> (r matches Err(e) && e.kind == MediaErrorKind::Duplicate
            && e.message@ == duplicate_message(id)),
{
    match existing {
        Some(id) => Err(duplicate_entry_error(id)),
        None => Ok(()),
    }
}

/// A refresh must store the entry's own title.
pub fn same_title(expected_title_id: i64, title_id: i64) -> (r: Result<(), MediaError>)
    ensures
        r is Ok <==> expected_title_id == title_id,
        r matches Err(e) ==> e.kind == MediaErrorKind::Database && e.message@
            == "The refreshed title did not match the saved library entry."@,
{
    if expected_title_id != title_id {
        Err(MediaError::database("The refreshed title did not match the saved library entry."))
    } else {
        Ok(())
    }
}

pub const STORE_SNAPSHOT_SQL: &'static str = "
                INSERT INTO obj_media_provider_snapshot (
                    media_title_id, region_code, source_key, source_link_url,
                    refreshed_at, last_refresh_status, last_refresh_error
                )
                VALUES (
                    ?1, ?2, 'tmdb', ?3, datetime('now', 'localtime'), 'SUCCESS', ''
                )
                ON CONFLICT (media_title_id, region_code) DO UPDATE SET
                    source_link_url = excluded.source_link_url,
                    refreshed_at = datetime('now', 'localtime'),
                    last_refresh_status = 'SUCCESS',
                    last_refresh_error = '',
                    updated_at = datetime('now', 'localtime')
                ";

/// A successful provider snapshot for a title: its region and the
/// availability page.
pub fn snapshot_statement(title_id: i64, snapshot: &NormalizedProviderSnapshot) -> (r: SqlStatement)
    ensures
        statement_view(r) == (
            STORE_SNAPSHOT_SQL@,
            seq![int_arg(title_id), text_arg(snapshot.region_code@), text_arg(snapshot.source_link_url@)],
        ),
{
    let mut p: Vec<SqlParam> = Vec::new();
    p.push(int_param(title_id));
    p.push(text_param(snapshot.region_code.as_str()));
    p.push(text_param(snapshot.source_link_url.as_str()));
    let r = SqlStatement { sql: STORE_SNAPSHOT_SQL, params: p };
    assert(params_view(r.params@) =~= seq![
        int_arg(title_id),
        text_arg(snapshot.region_code@),
        text_arg(snapshot.source_link_url@),
    ]);
    r
}

pub const SNAPSHOT_ID_SQL: &'static str = "
                SELECT id FROM obj_media_provider_snapshot
                WHERE media_title_id = ?1 AND region_code = ?2
                ";

pub fn snapshot_key_statement(title_id: i64, region: &str) -> (r: SqlStatement)
    ensures
        statement_view(r) == (SNAPSHOT_ID_SQL@, seq![int_arg(title_id), text_arg(region@)]),
{
    let mut p: Vec<SqlParam> = Vec::new();
    p.push(int_param(title_id));
    p.push(text_param(region));
    let r = SqlStatement { sql: SNAPSHOT_ID_SQL, params: p };
    assert(params_view(r.params@) =~= seq![int_arg(title_id), text_arg(region@)]);
    r
}

pub const CLEAR_AVAILABILITY_SQL: &'static str = "DELETE FROM obj_media_provider_availability WHERE snapshot_id = ?1";

pub const SETTINGS_REGION_SQL: &'static str = "SELECT region_code FROM obj_media_setting WHERE id = 1";

pub const SNAPSHOT_FAILED_SQL: &'static str = "
                INSERT INTO obj_media_provider_snapshot (
                    media_title_id, region_code, source_key, last_refresh_status, last_refresh_error
                )
                VALUES (?1, ?2, 'tmdb', 'FAILED', ?3)
                ON CONFLICT (media_title_id, region_code) DO UPDATE SET
                    last_refresh_status = 'FAILED',
                    last_refresh_error = excluded.last_refresh_error,
                    updated_at = datetime('now', 'localtime')
                ";

/// A failed provider refresh for a title in a region, with the error.
pub fn snapshot_failure_statement(title_id: i64, region: String, error: &str) -> (r: SqlStatement)
    ensures
        statement_view(r) == (SNAPSHOT_FAILED_SQL@, seq![int_arg(title_id), text_arg(region@), text_arg(error@)]),
{
    let mut p: Vec<SqlParam> = Vec::new();
    p.push(int_param(title_id));
    p.push(owned_text_param(region));
    p.push(text_param(error));
    let r = SqlStatement { sql: SNAPSHOT_FAILED_SQL, params: p };
    assert(params_view(r.params@) =~= seq![int_arg(title_id), text_arg(region@), text_arg(error@)]);
    r
}

pub const STORE_EPISODE_SQL: &'static str = "
                        INSERT INTO obj_media_episode (
                            media_title_id, season_id, external_id, season_number,
                            episode_number, name, overview, air_date, runtime_minutes,
                            still_path, is_present_in_source, metadata_json, metadata_refreshed_at
                        )
                        VALUES (
                            ?1, ?2, ?3, ?4, ?5, ?6, ?7, ?8, ?9, ?10, 1, ?11,
                            datetime('now', 'localtime')
                        )
                        ON CONFLICT (media_title_id, season_number, episode_number) DO UPDATE SET
                            season_id = excluded.season_id,
                            external_id = excluded.external_id,
                            name = excluded.name,
                            overview = excluded.overview,
                            air_date = excluded.air_date,
                            runtime_minutes = excluded.runtime_minutes,
                            still_path = excluded.still_path,
                            is_present_in_source = 1,
                            metadata_json = excluded.metadata_json,
                            metadata_refreshed_at = datetime('now', 'localtime'),
                            updated_at = datetime('now', 'localtime')
                        ";

/// An episode row as stored: its title and season, then the episode's
/// provider id, numbers, texts, runtime, still and payload.
pub open spec fn episode_args(title_id: i64, season_id: i64, e: NormalizedMediaEpisode) -> Seq<(u8, i64, Seq<char>)> {
    seq![
        int_arg(title_id),
        int_arg(season_id),
        opt_int_arg(e.external_id),
        int_arg(e.season_number),
        int_arg(e.episode_number),
        text_arg(e.name@),
        text_arg(e.overview@),
        text_arg(e.air_date@),
        opt_int_arg(e.runtime_minutes),
        text_arg(e.still_path@),
        text_arg(e.metadata_json@),
    ]
}

pub fn episode_statement(title_id: i64, season_id: i64, e: &NormalizedMediaEpisode) -> (r: SqlStatement)
    ensures
        statement_view(r) == (STORE_EPISODE_SQL@, episode_args(title_id, season_id, *e)),
{
    let mut p: Vec<SqlParam> = Vec::new();
    p.push(int_param(title_id));
    p.push(int_param(season_id));
    p.push(opt_int_param(e.external_id));
    p.push(int_param(e.season_number));
    p.push(int_param(e.episode_number));
    p.push(text_param(e.name.as_str()));
    p.push(text_param(e.overview.as_str()));
    p.push(text_param(e.air_date.as_str()));
    p.push(opt_int_param(e.runtime_minutes));
    p.push(text_param(e.still_path.as_str()));
    p.push(text_param(e.metadata_json.as_str()));
    let r = SqlStatement { sql: STORE_EPISODE_SQL, params: p };
    assert(params_view(r.params@) =~= episode_args(title_id, season_id, *e));
    r
}

pub const STORE_SEASON_SQL: &'static str = "
                    INSERT INTO obj_media_season (
                        media_title_id, external_id, season_number, name, overview, air_date,
                        poster_path, episode_count, is_present_in_source, metadata_json,
                        metadata_refreshed_at
                    )
                    VALUES (?1, ?2, ?3, ?4, ?5, ?6, ?7, ?8, 1, ?9, datetime('now', 'localtime'))
                    ON CONFLICT (media_title_id, season_number) DO UPDATE SET
                        external_id = excluded.external_id,
                        name = excluded.name,
                        overview = excluded.overview,
                        air_date = excluded.air_date,
                        poster_path = excluded.poster_path,
                        episode_count = excluded.episode_count,
                        is_present_in_source = 1,
                        metadata_json = excluded.metadata_json,
                        metadata_refreshed_at = datetime('now', 'localtime'),
                        updated_at = datetime('now', 'localtime')
                    ";

/// A season row as stored: its title, then the season's provider id,
/// number, texts, poster, episode count and payload.
pub open spec fn season_args(title_id: i64, s: NormalizedMediaSeason) -> Seq<(u8, i64, Seq<char>)> {
    seq![
        int_arg(title_id),
        opt_int_arg(s.external_id),
        int_arg(s.season_number),
        text_arg(s.name@),
        text_arg(s.overview@),
        text_arg(s.air_date@),
        text_arg(s.poster_path@),
        int_arg(s.episode_count),
        text_arg(s.metadata_json@),
    ]
}

pub fn season_statement(title_id: i64, s: &NormalizedMediaSeason) -> (r: SqlStatement)
    ensures
        statement_view(r) == (STORE_SEASON_SQL@, season_args(title_id, *s)),
{
    let mut p: Vec<SqlParam> = Vec::new();
    p.push(int_param(title_id));
    p.push(opt_int_param(s.external_id));
    p.push(int_param(s.season_number));
    p.push(text_param(s.name.as_str()));
    p.push(text_param(s.overview.as_str()));
    p.push(text_param(s.air_date.as_str()));
    p.push(text_param(s.poster_path.as_str()));
    p.push(int_param(s.episode_count));
    p.push(text_param(s.metadata_json.as_str()));
    let r = SqlStatement { sql: STORE_SEASON_SQL, params: p };
    assert(params_view(r.params@) =~= season_args(title_id, *s));
    r
}

pub const SEASON_ID_SQL: &'static str = "
                    SELECT id FROM obj_media_season
                    WHERE media_title_id = ?1 AND season_number = ?2
                    ";

pub const STORE_AVAILABILITY_SQL: &'static str = "
                    INSERT INTO obj_media_provider_availability (
                        snapshot_id, provider_external_id, provider_name,
                        provider_logo_path, monetization_type, display_priority
                    )
                    VALUES (?1, ?2, ?3, ?4, ?5, ?6)
                    ";

/// A provider's availability row: the snapshot, then the provider's id,
/// name, logo, monetization type and display priority.
pub fn availability_statement(snapshot_id: i64, a: &NormalizedProviderAvailability) -> (r: SqlStatement)
    ensures
        statement_view(r) == (
            STORE_AVAILABILITY_SQL@,
            seq![
                int_arg(snapshot_id),
                int_arg(a.provider_external_id),
                text_arg(a.provider_name@),
                text_arg(a.provider_logo_path@),
                text_arg(a.monetization_type@),
                int_arg(a.display_priority),
            ],
        ),
{
    let mut p: Vec<SqlParam> = Vec::new();
    p.push(int_param(snapshot_id));
    p.push(int_param(a.provider_external_id));
    p.push(text_param(a.provider_name.as_str()));
    p.push(text_param(a.provider_logo_path.as_str()));
    p.push(text_param(a.monetization_type.as_str()));
    p.push(int_param(a.display_priority));
    let r = SqlStatement { sql: STORE_AVAILABILITY_SQL, params: p };
    assert(params_view(r.params@) =~= seq![
        int_arg(snapshot_id),
        int_arg(a.provider_external_id),
        text_arg(a.provider_name@),
        text_arg(a.provider_logo_path@),
        text_arg(a.monetization_type@),
        int_arg(a.display_priority),
    ]);
    r
}

impl<'a> MediaRepository<'a> {
    /// Inserts the imported title, or updates the row with the same source
    /// identity (`upsert_title_statement`), and gives its id
    /// (`title_identity_statement`).
    fn upsert_imported_title(connection: &rusqlite::Connection, import: &NormalizedMediaImport) -> (r:
        Result<i64, MediaError>)
        ensures
            r matches Err(e) ==> is_database_error(e),
    {
        let title = &import.title;
        match run_statement(connection, &upsert_title_statement(title)) {
            Ok(_) => {},
            Err(e) => return Err(e),
        }
        let find = title_identity_statement(title);
        match sql_i64_value(connection, find.sql, &find.params) {
            Ok(id) => Ok(id),
            Err(e) => Err(MediaError::from_sql(&e)),
        }
    }

    fn store_episode(connection: &rusqlite::Connection, title_id: i64, season_id: i64, episode: &NormalizedMediaEpisode) -> (r:
        Result<(), MediaError>)
        ensures
            r matches Err(e) ==> is_database_error(e),
    {
        match run_statement(connection, &episode_statement(title_id, season_id, episode)) {
            Ok(_) => Ok(()),
            Err(e) => Err(e),
        }
    }

    /// Stores a season and its episodes, all marked present in the source.
    fn store_season(connection: &rusqlite::Connection, title_id: i64, season: &NormalizedMediaSeason) -> (r:
        Result<(), MediaError>)
        ensures
            r matches Err(e) ==> is_database_error(e),
    {
        match run_statement(connection, &season_statement(title_id, season)) {
            Ok(_) => {},
            Err(e) => return Err(e),
        }
        let find = int_pair_statement(SEASON_ID_SQL, title_id, season.season_number);
        let season_id = match sql_i64_value(connection, find.sql, &find.params) {
            Ok(id) => id,
            Err(e) => return Err(MediaError::from_sql(&e)),
        };
        let mut i: usize = 0;
        while i < season.episodes.len()
            invariant
                i <= season.episodes.len(),
            decreases season.episodes.len() - i,
        {
            match Self::store_episode(connection, title_id, season_id, &season.episodes[i]) {
                Ok(()) => {},
                Err(e) => return Err(e),
            }
            i = i + 1;
        }
        Ok(())
    }

    fn store_availability(connection: &rusqlite::Connection, snapshot_id: i64, provider: &NormalizedProviderAvailability) -> (r:
        Result<(), MediaError>)
        ensures
            r matches Err(e) ==> is_database_error(e),
    {
        match run_statement(connection, &availability_statement(snapshot_id, provider)) {
            Ok(_) => Ok(()),
            Err(e) => Err(e),
        }
    }

    /// Replaces the title's availability for the snapshot's region; with no
    /// snapshot but a provider error, marks the settings' region (or the
    /// default region when the settings cannot be read) as failed and keeps
    /// its old rows.
    fn replace_or_mark_availability(connection: &rusqlite::Connection, title_id: i64, import: &NormalizedMediaImport) -> (r:
        Result<(), MediaError>)
        ensures
            r matches Err(e) ==> is_database_error(e),
    {
        if let Some(snapshot) = &import.provider_snapshot {
            match run_statement(connection, &snapshot_statement(title_id, snapshot)) {
                Ok(_) => {},
                Err(e) => return Err(e),
            }
            let find = snapshot_key_statement(title_id, snapshot.region_code.as_str());
            let snapshot_id = match sql_i64_value(connection, find.sql, &find.params) {
                Ok(id) => id,
                Err(e) => return Err(MediaError::from_sql(&e)),
            };
            match run_statement(connection, &int_statement(CLEAR_AVAILABILITY_SQL, snapshot_id)) {
                Ok(_) => {},
                Err(e) => return Err(e),
            }
            let mut i: usize = 0;
            while i < snapshot.providers.len()
                invariant
                    i <= snapshot.providers.len(),
                decreases snapshot.providers.len() - i,
            {
                match Self::store_availability(connection, snapshot_id, &snapshot.providers[i]) {
                    Ok(()) => {},
                    Err(e) => return Err(e),
                }
                i = i + 1;
            }
        } else if let Some(error) = &import.provider_error {
            let none: Vec<SqlParam> = Vec::new();
            let region = match sql_text_value(connection, SETTINGS_REGION_SQL, &none) {
                Ok(r) => r,
                Err(_) => String::from_str(DEFAULT_MEDIA_REGION),
            };
            match run_statement(connection, &snapshot_failure_statement(title_id, region, error.as_str())) {
                Ok(_) => {},
                Err(e) => return Err(e),
            }
        }
        Ok(())
    }

    /// Stores the seasons, episodes and availability of an import. For a
    /// series, every season and episode is first marked gone from the
    /// source and those in the import marked present again; a refresh adds
    /// the growth in included episodes to the entry's new-episode count and
    /// moves the series to the status its episodes call for.
    fn apply_import_children(
        connection: &rusqlite::Connection,
        title_id: i64,
        import: &NormalizedMediaImport,
        entry_id: i64,
        is_refresh: bool,
    ) -> (r: Result<(), MediaError>)
        ensures
            r matches Err(e) ==> import_error(e),
    {
        let include_specials = match Self::include_specials(connection) {
            Ok(b) => b,
            Err(e) => return Err(e),
        };
        let old_total = match Self::included_episode_count(connection, title_id, include_specials) {
            Ok(n) => n,
            Err(e) => return Err(e),
        };
        let is_series = import.title.content_type == MediaContentType::Series;
        if is_series {
            match check(
                sql_execute(
                    connection,
                    "UPDATE obj_media_season SET is_present_in_source = 0 WHERE media_title_id = ?1",
                    &one(title_id),
                ),
            ) {
                Ok(_) => {},
                Err(e) => return Err(e),
            }
            match check(
                sql_execute(
                    connection,
                    "UPDATE obj_media_episode SET is_present_in_source = 0 WHERE media_title_id = ?1",
                    &one(title_id),
                ),
            ) {
                Ok(_) => {},
                Err(e) => return Err(e),
            }
            let mut i: usize = 0;
            while i < import.seasons.len()
                invariant
                    i <= import.seasons.len(),
                decreases import.seasons.len() - i,
            {
                match Self::store_season(connection, title_id, &import.seasons[i]) {
                    Ok(()) => {},
                    Err(e) => return Err(e),
                }
                i = i + 1;
            }
            let new_total = match Self::included_episode_count(
                connection,
                title_id,
                include_specials,
            ) {
                Ok(n) => n,
                Err(e) => return Err(e),
            };
            if let Some(added) = added_episodes(is_refresh, old_total, new_total) {
                match check(
                    sql_execute(
                        connection,
                        "
                    UPDATE obj_media_library_entry
                    SET new_episodes_count = new_episodes_count + ?2,
                        updated_at = datetime('now', 'localtime')
                    WHERE id = ?1
                    ",
                        &two(entry_id, added),
                    ),
                ) {
                    Ok(_) => {},
                    Err(e) => return Err(e),
                }
            }
        }
        match Self::replace_or_mark_availability(connection, title_id, import) {
            Ok(()) => {},
            Err(e) => return Err(e),
        }
        if is_series && is_refresh {
            match Self::recalculate_series_status(connection, entry_id, true) {
                Ok(_) => {},
                Err(e) => return Err(e),
            }
        }
        Ok(())
    }

    /// Adds an imported title to the library with the given status, in one
    /// transaction, and gives the new entry's id: the title is stored
    /// (`upsert_imported_title`); a title that already has an entry
    /// (`ENTRY_OF_TITLE_SQL`) is refused (`not_yet_in_library`) before any
    /// entry is added; otherwise the entry (`catalog_entry_statement`) and
    /// the import's seasons, episodes and availability are stored.
    pub fn add_catalog_import(&self, import: &NormalizedMediaImport, status: MediaLibraryStatus) -> (r:
        Result<i64, MediaError>)
        ensures
            r matches Err(e) ==> import_error(e) || e.kind == MediaErrorKind::Duplicate,
    {
        let transaction = match sql_begin(self.database.connection()) {
            Ok(t) => t,
            Err(e) => return Err(MediaError::from_sql(&e)),
        };
        let inner = sql_in(&transaction);
        let title_id = match Self::upsert_imported_title(inner, import) {
            Ok(id) => id,
            Err(e) => return Err(e),
        };
        let existing = int_statement(ENTRY_OF_TITLE_SQL, title_id);
        match sql_optional_i64(inner, existing.sql, &existing.params) {
            Ok(found) => match not_yet_in_library(found) {
                Ok(()) => {},
                Err(e) => return Err(e),
            },
            Err(e) => return Err(MediaError::from_sql(&e)),
        }
        match run_statement(inner, &catalog_entry_statement(title_id, status)) {
            Ok(_) => {},
            Err(e) => return Err(e),
        }
        let entry_id = sql_last_insert_rowid(inner);
        match Self::apply_import_children(inner, title_id, import, entry_id, false) {
            Ok(()) => {},
            Err(e) => return Err(e),
        }
        match sql_commit(transaction) {
            Ok(()) => Ok(entry_id),
            Err(e) => Err(MediaError::from_sql(&e)),
        }
    }

    /// Stores a fresh import over an entry's title, in one transaction: the
    /// entry's title is read (`ENTRY_TITLE_SQL`; none is not found), the
    /// import's title is stored (`upsert_imported_title`) and must be that
    /// title (`same_title`), then its seasons, episodes and availability.
    pub fn refresh_import(&self, entry_id: i64, import: &NormalizedMediaImport) -> (r: Result<
        (),
        MediaError,
    >)
        ensures
            r matches Err(e) ==> import_error(e) || database_or_not_found(
                e,
                "Media library entry was not found."@,
            ) || (e.kind == MediaErrorKind::Database && e.message@
                == "The refreshed title did not match the saved library entry."@),
    {
        let transaction = match sql_begin(self.database.connection()) {
            Ok(t) => t,
            Err(e) => return Err(MediaError::from_sql(&e)),
        };
        let inner = sql_in(&transaction);
        let find = int_statement(crate::media_repository::ENTRY_TITLE_SQL, entry_id);
        let expected_title_id = match lookup_outcome(
            sql_optional_i64(inner, find.sql, &find.params),
            MediaError::not_found("Media library entry was not found."),
        ) {
            Ok(v) => v,
            Err(e) => return Err(e),
        };
        let title_id = match Self::upsert_imported_title(inner, import) {
            Ok(id) => id,
            Err(e) => return Err(e),
        };
        match same_title(expected_title_id, title_id) {
            Ok(()) => {},
            Err(e) => return Err(e),
        }
        match Self::apply_import_children(inner, title_id, import, entry_id, true) {
            Ok(()) => {},
            Err(e) => return Err(e),
        }
        match sql_commit(transaction) {
            Ok(()) => Ok(()),
            Err(e) => Err(MediaError::from_sql(&e)),
        }
    }
}

/// What the provider is asked for: the title's TMDB id and media type, in
/// the settings' metadata language and region.
pub struct FetchArguments {
    pub external_id: i64,
    pub external_media_type: String,
    pub language: String,
    pub region: String,
}

pub fn fetch_arguments(external_id: i64, external_media_type: &str, settings: &MediaSettingsRecord) -> (r:
    FetchArguments)
    ensures
        r.external_id == external_id,
        r.external_media_type@ == external_media_type@,
        r.language@ == settings.metadata_language@,
        r.region@ == settings.region_code@,
{
    FetchArguments {
        external_id,
        external_media_type: String::from_str(external_media_type),
        language: String::from_str(settings.metadata_language.as_str()),
        region: String::from_str(settings.region_code.as_str()),
    }
}

/// A title found in the library is refused as a duplicate naming its entry.
pub fn duplicate_refusal(found: Option<i64>) -> (r: Result<(), MediaError>)
    ensures
        found is None <==> r is Ok,
        found matches Some(id) ==> (r matches Err(e) && e.kind == MediaErrorKind::Duplicate
            && e.message@ == duplicate_message(id)),
{
    match found {
        Some(id) => Err(duplicate_entry_error(id)),
        None => Ok(()),
    }
}

impl<'a> MediaCatalogService<'a> {
    /// Stores what the provider answered for a new title: its error is
    /// handed back unchanged; an import is added with the status.
    pub fn apply_catalog_add(&self, fetched: Result<NormalizedMediaImport, MediaError>, status: MediaLibraryStatus) -> (r:
        Result<i64, MediaError>)
        ensures
            fetched matches Err(e) ==> r == Err::<i64, MediaError>(e),
            fetched is Ok ==> (r matches Err(e) ==> import_error(e) || e.kind == MediaErrorKind::Duplicate),
    {
        match fetched {
            Ok(import) => self.repository.add_catalog_import(&import, status),
            Err(e) => Err(e),
        }
    }

    /// Stores what the provider answered for a refresh: an import refreshes
    /// the entry; an error is recorded on the entry (kind, colon, message)
    /// and handed back unchanged, whether or not recording it worked.
    pub fn apply_refresh(&self, entry_id: i64, fetched: Result<NormalizedMediaImport, MediaError>) -> (r: Result<
        (),
        MediaError,
    >)
        ensures
            fetched matches Err(e) ==> r == Err::<(), MediaError>(e),
            fetched is Ok ==> (r matches Err(e) ==> import_error(e) || database_or_not_found(
                e,
                "Media library entry was not found."@,
            ) || (e.kind == MediaErrorKind::Database && e.message@
                == "The refreshed title did not match the saved library entry."@)),
    {
        match fetched {
            Ok(import) => self.repository.refresh_import(entry_id, &import),
            Err(error) => {
                let _ = self.repository.mark_refresh_failure(entry_id, error.to_display_string().as_str());
                Err(error)
            },
        }
    }

    /// Adds a provider title to the library and gives its entry id: a
    /// title already in the library is refused (`duplicate_refusal`) before
    /// the provider is asked; otherwise the provider is asked with
    /// `fetch_arguments` and its answer stored by `apply_catalog_add`; the
    /// new entry is then read back in full. The provider's own errors come
    /// back as it gave them.
    pub fn add_catalog_title<P: MediaMetadataProvider>(&self, provider: &P, input: &AddCatalogMediaInput) -> (r:
        Result<crate::media_summary::MediaLibraryDetail, MediaError>) {
        let found = match self.repository.find_external_entry(input.external_id, input.external_media_type.as_str()) {
            Ok(f) => f,
            Err(e) => return Err(e),
        };
        match duplicate_refusal(found) {
            Ok(()) => {},
            Err(e) => return Err(e),
        }
        let settings = match self.repository.get_settings() {
            Ok(s) => s,
            Err(e) => return Err(e),
        };
        let args = fetch_arguments(input.external_id, input.external_media_type.as_str(), &settings);
        let fetched = provider.fetch_import(
            args.external_id,
            args.external_media_type.as_str(),
            args.language.as_str(),
            args.region.as_str(),
        );
        match self.apply_catalog_add(fetched, input.library_status) {
            Ok(entry_id) => self.repository.get_detail(entry_id),
            Err(e) => Err(e),
        }
    }

    /// Refreshes a TMDB entry from the provider: the entry's stored TMDB
    /// identity is asked for with `fetch_arguments`, the answer is stored by
    /// `apply_refresh`, and the entry is read back in full.
    pub fn refresh<P: MediaMetadataProvider>(&self, provider: &P, entry_id: i64) -> (r: Result<
        crate::media_summary::MediaLibraryDetail,
        MediaError,
    >) {
        let (external_id, external_media_type) = match self.refresh_identity(entry_id) {
            Ok(identity) => identity,
            Err(e) => return Err(e),
        };
        let settings = match self.repository.get_settings() {
            Ok(s) => s,
            Err(e) => return Err(e),
        };
        let args = fetch_arguments(external_id, external_media_type.as_str(), &settings);
        let fetched = provider.fetch_import(
            args.external_id,
            args.external_media_type.as_str(),
            args.language.as_str(),
            args.region.as_str(),
        );
        match self.apply_refresh(entry_id, fetched) {
            Ok(()) => self.repository.get_detail(entry_id),
            Err(e) => Err(e),
        }
    }
}

} // verus!
