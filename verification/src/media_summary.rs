//! What a library summary looks up beyond its row: a series' next unwatched
//! episode, the subscription services that carry the title, and whether the
//! saved availability is stale.
use crate::database::{
    cell_int, cell_opt_int, cell_opt_text, cell_text, int_cell, is_database_error, opt_int_cell,
    opt_text_cell, row_shape_error, sql_cell_rows, sql_tag_rows, sql_i64_value, sql_optional_next_episode, sql_text_pair_rows,
    text_cell, SqlCell, SqlParam,
};
use crate::media::{
    MediaContentType, MediaError, MediaErrorKind, MediaLibraryStatus, MediaNextEpisode, MediaProviderSummary,
};
use crate::media_repository::{
    database_or_not_found, load_seasons, summary_progress, tag_records, MediaRepository,
};
use crate::media::{
    MediaProviderAvailabilityRecord, MediaProviderSnapshotRecord, MediaSeasonRecord, MediaSettingsRecord,
    MediaStreamingLinkRecord, MediaTagRecord,
};
use crate::media_query::summary_select_chars;
use crate::text::{chars_of, extend_str, string_of};
use crate::media::MediaLibraryFilter;
use crate::media_query::library_query;
use crate::media_query::int_arg;
use crate::statements::{int_statement, statement_view, SqlStatement};
use vstd::prelude::*;

verus! {

/// The statement that finds a title's next unwatched episode (specials
/// only when the settings count them): present in the source, by season
/// and episode number; its one parameter is the title id.
pub open spec fn next_episode_sql(include_specials: bool) -> Seq<char> {
    if include_specials {
        "
                    SELECT episode.id, episode.season_number, episode.episode_number,
                           episode.name, episode.air_date
                    FROM obj_media_episode episode
                    LEFT JOIN obj_media_episode_progress progress
                      ON progress.episode_id = episode.id
                    WHERE episode.media_title_id = ?1
                      AND episode.is_present_in_source = 1
                      AND COALESCE(progress.is_watched, 0) = 0
                    ORDER BY episode.season_number, episode.episode_number
                    LIMIT 1
                    "@
    } else {
        "
                    SELECT episode.id, episode.season_number, episode.episode_number,
                           episode.name, episode.air_date
                    FROM obj_media_episode episode
                    LEFT JOIN obj_media_episode_progress progress
                      ON progress.episode_id = episode.id
                    WHERE episode.media_title_id = ?1
                      AND episode.is_present_in_source = 1
                      AND episode.season_number <> 0
                      AND COALESCE(progress.is_watched, 0) = 0
                    ORDER BY episode.season_number, episode.episode_number
                    LIMIT 1
                    "@
    }
}

pub fn next_episode_query(include_specials: bool) -> (r: &'static str)
    ensures
        r@ == next_episode_sql(include_specials),
{
    if include_specials {
        "
                    SELECT episode.id, episode.season_number, episode.episode_number,
                           episode.name, episode.air_date
                    FROM obj_media_episode episode
                    LEFT JOIN obj_media_episode_progress progress
                      ON progress.episode_id = episode.id
                    WHERE episode.media_title_id = ?1
                      AND episode.is_present_in_source = 1
                      AND COALESCE(progress.is_watched, 0) = 0
                    ORDER BY episode.season_number, episode.episode_number
                    LIMIT 1
                    "
    } else {
        "
                    SELECT episode.id, episode.season_number, episode.episode_number,
                           episode.name, episode.air_date
                    FROM obj_media_episode episode
                    LEFT JOIN obj_media_episode_progress progress
                      ON progress.episode_id = episode.id
                    WHERE episode.media_title_id = ?1
                      AND episode.is_present_in_source = 1
                      AND episode.season_number <> 0
                      AND COALESCE(progress.is_watched, 0) = 0
                    ORDER BY episode.season_number, episode.episode_number
                    LIMIT 1
                    "
    }
}

/// The query for a title's next unwatched episode.
pub fn next_episode_statement(title_id: i64, include_specials: bool) -> (r: SqlStatement)
    ensures
        statement_view(r) == (next_episode_sql(include_specials), seq![int_arg(title_id)]),
{
    int_statement(next_episode_query(include_specials), title_id)
}

pub const SUBSCRIPTION_PROVIDERS_SQL: &'static str = "
            SELECT DISTINCT availability.provider_name, availability.provider_logo_path
            FROM obj_media_provider_snapshot snapshot
            JOIN obj_media_provider_availability availability
              ON availability.snapshot_id = snapshot.id
            WHERE snapshot.media_title_id = ?1
              AND availability.monetization_type = 'FLATRATE'
            ORDER BY availability.display_priority, availability.provider_name COLLATE NOCASE
            LIMIT 8
            ";

pub const AVAILABILITY_STALE_SQL: &'static str = "
            SELECT CASE
                WHEN COUNT(*) = 0 THEN 0
                WHEN MAX(last_refresh_status) <> 'SUCCESS' THEN 1
                WHEN MAX(refreshed_at) = '' THEN 1
                WHEN datetime(MAX(refreshed_at)) < datetime('now', '-7 days') THEN 1
                ELSE 0
            END
            FROM obj_media_provider_snapshot
            WHERE media_title_id = ?1
            ";

/// The next episode a row describes, column by column.
pub fn next_episode_record(row: (i64, i64, i64, String, String)) -> (r: MediaNextEpisode)
    ensures
        r.id == row.0,
        r.season_number == row.1,
        r.episode_number == row.2,
        r.name@ == row.3@,
        r.air_date@ == row.4@,
{
    MediaNextEpisode {
        id: row.0,
        season_number: row.1,
        episode_number: row.2,
        name: row.3,
        air_date: row.4,
    }
}

/// The next unwatched episode of a title, if there is one.
pub fn next_episode(connection: &rusqlite::Connection, title_id: i64, include_specials: bool) -> (r:
    Result<Option<MediaNextEpisode>, MediaError>)
    ensures
        r matches Err(e) ==> is_database_error(e),
{
    let query = next_episode_statement(title_id, include_specials);
    match sql_optional_next_episode(connection, query.sql, &query.params) {
        Ok(Some(row)) => Ok(Some(next_episode_record(row))),
        Ok(None) => Ok(None),
        Err(e) => Err(MediaError::from_sql(&e)),
    }
}

/// The provider summaries of (name, logo) rows, in order.
pub fn provider_summaries(rows: Vec<(String, String)>) -> (r: Vec<MediaProviderSummary>)
    ensures
        r@.len() == rows@.len(),
        forall|i: int|
            0 <= i < rows@.len() ==> (#[trigger] r@[i]).provider_name@ == rows@[i].0@
                && r@[i].provider_logo_path@ == rows@[i].1@,
{
    let ghost all = rows@;
    let n = rows.len();
    let mut out: Vec<MediaProviderSummary> = Vec::new();
    let mut rows = rows;
    while rows.len() > 0
        invariant
            n == all.len(),
            out@.len() + rows@.len() == n,
            rows@ == all.skip(out@.len() as int),
            forall|i: int|
                0 <= i < out@.len() ==> (#[trigger] out@[i]).provider_name@ == all[i].0@
                    && out@[i].provider_logo_path@ == all[i].1@,
        decreases rows.len(),
    {
        let ghost k = out@.len();
        assert(rows@[0] == all[k as int]);
        let (name, logo) = rows.remove(0);
        out.push(MediaProviderSummary { provider_name: name, provider_logo_path: logo });
        assert(rows@ =~= all.skip(k as int + 1));
    }
    out
}

/// The subscription services (flat-rate providers) of a title's saved
/// availability, by display priority then name, at most eight.
pub fn subscription_providers(connection: &rusqlite::Connection, title_id: i64) -> (r: Result<
    Vec<MediaProviderSummary>,
    MediaError,
>)
    ensures
        r matches Err(e) ==> is_database_error(e),
{
    let query = int_statement(SUBSCRIPTION_PROVIDERS_SQL, title_id);
    match sql_text_pair_rows(connection, query.sql, &query.params) {
        Ok(rows) => Ok(provider_summaries(rows)),
        Err(e) => Err(MediaError::from_sql(&e)),
    }
}

/// Whether a title's saved availability is stale: it has some, and the
/// last refresh failed, never happened, or is more than a week old.
pub fn availability_is_stale(connection: &rusqlite::Connection, title_id: i64) -> (r: Result<
    bool,
    MediaError,
>)
    ensures
        r matches Err(e) ==> is_database_error(e),
{
    let query = int_statement(AVAILABILITY_STALE_SQL, title_id);
    match sql_i64_value(connection, query.sql, &query.params) {
        Ok(v) => Ok(v != 0),
        Err(e) => Err(MediaError::from_sql(&e)),
    }
}

/// What a summary looks up for a title: its next unwatched episode (only
/// for a series), its subscription services, and whether its availability
/// is stale.
pub fn summary_lookups(
    connection: &rusqlite::Connection,
    title_id: i64,
    content_type: MediaContentType,
    include_specials: bool,
) -> (r: Result<(Option<MediaNextEpisode>, Vec<MediaProviderSummary>, bool), MediaError>)
    ensures
        r matches Err(e) ==> is_database_error(e),
        r matches Ok(t) ==> content_type != MediaContentType::Series ==> t.0 is None,
{
    let next = match content_type {
        MediaContentType::Series => match next_episode(connection, title_id, include_specials) {
            Ok(n) => n,
            Err(e) => return Err(e),
        },
        _ => None,
    };
    let providers = match subscription_providers(connection, title_id) {
        Ok(p) => p,
        Err(e) => return Err(e),
    };
    let stale = match availability_is_stale(connection, title_id) {
        Ok(s) => s,
        Err(e) => return Err(e),
    };
    Ok((next, providers, stale))
}


// ------------------------------------------------------------ rows

/// The columns of a library summary row (`summary_select`), all but the
/// personal rating (column 25) and the progress percentage (column 36),
/// which are real numbers.
#[derive(Clone, Debug)]
pub struct MediaSummaryRow {
    pub id: i64,
    pub media_title_id: i64,
    pub source_key: String,
    pub external_id: Option<i64>,
    pub external_media_type: Option<String>,
    pub content_type: String,
    pub title: String,
    pub original_title: String,
    pub overview: String,
    pub original_language: String,
    pub release_date: String,
    pub first_air_date: String,
    pub last_air_date: String,
    pub runtime_minutes: Option<i64>,
    pub episode_runtime_minutes: Option<i64>,
    pub external_status: String,
    pub series_type: String,
    pub poster_path: String,
    pub backdrop_path: String,
    pub homepage_url: String,
    pub total_seasons: Option<i64>,
    pub total_episodes: Option<i64>,
    pub metadata_refreshed_at: String,
    pub library_status: String,
    pub is_favorite: bool,
    pub notes: String,
    pub priority: i64,
    pub queue_position: Option<i64>,
    pub added_at: String,
    pub started_at: String,
    pub completed_at: String,
    pub last_watched_at: String,
    pub new_episodes_count: i64,
    pub watched_count: i64,
    pub progress_total: i64,
}

pub open spec fn opt_string_view(o: Option<String>) -> Option<Seq<char>> {
    match o {
        Some(t) => Some(t@),
        None => None,
    }
}

/// Whether every column the summary reads holds a value of its kind.
pub open spec fn summary_cells_fit(c: Seq<SqlCell>) -> bool {
    &&& c.len() >= 37
    &&& cell_int(c[0]) is Some
    &&& cell_int(c[1]) is Some
    &&& cell_text(c[2]) is Some
    &&& cell_opt_int(c[3]) is Some
    &&& cell_opt_text(c[4]) is Some
    &&& cell_text(c[5]) is Some
    &&& cell_text(c[6]) is Some
    &&& cell_text(c[7]) is Some
    &&& cell_text(c[8]) is Some
    &&& cell_text(c[9]) is Some
    &&& cell_text(c[10]) is Some
    &&& cell_text(c[11]) is Some
    &&& cell_text(c[12]) is Some
    &&& cell_opt_int(c[13]) is Some
    &&& cell_opt_int(c[14]) is Some
    &&& cell_text(c[15]) is Some
    &&& cell_text(c[16]) is Some
    &&& cell_text(c[17]) is Some
    &&& cell_text(c[18]) is Some
    &&& cell_text(c[19]) is Some
    &&& cell_opt_int(c[20]) is Some
    &&& cell_opt_int(c[21]) is Some
    &&& cell_text(c[22]) is Some
    &&& cell_text(c[23]) is Some
    &&& cell_int(c[24]) is Some
    &&& cell_text(c[26]) is Some
    &&& cell_int(c[27]) is Some
    &&& cell_opt_int(c[28]) is Some
    &&& cell_text(c[29]) is Some
    &&& cell_text(c[30]) is Some
    &&& cell_text(c[31]) is Some
    &&& cell_text(c[32]) is Some
    &&& cell_int(c[33]) is Some
    &&& cell_int(c[34]) is Some
    &&& cell_int(c[35]) is Some
}

/// Whether `row` holds the columns of the cells.
pub open spec fn row_of_cells(row: MediaSummaryRow, c: Seq<SqlCell>) -> bool {
    &&& c.len() >= 37
    &&& cell_int(c[0]) == Some(row.id)
    &&& cell_int(c[1]) == Some(row.media_title_id)
    &&& cell_text(c[2]) == Some(row.source_key@)
    &&& cell_opt_int(c[3]) == Some(row.external_id)
    &&& cell_opt_text(c[4]) == Some(opt_string_view(row.external_media_type))
    &&& cell_text(c[5]) == Some(row.content_type@)
    &&& cell_text(c[6]) == Some(row.title@)
    &&& cell_text(c[7]) == Some(row.original_title@)
    &&& cell_text(c[8]) == Some(row.overview@)
    &&& cell_text(c[9]) == Some(row.original_language@)
    &&& cell_text(c[10]) == Some(row.release_date@)
    &&& cell_text(c[11]) == Some(row.first_air_date@)
    &&& cell_text(c[12]) == Some(row.last_air_date@)
    &&& cell_opt_int(c[13]) == Some(row.runtime_minutes)
    &&& cell_opt_int(c[14]) == Some(row.episode_runtime_minutes)
    &&& cell_text(c[15]) == Some(row.external_status@)
    &&& cell_text(c[16]) == Some(row.series_type@)
    &&& cell_text(c[17]) == Some(row.poster_path@)
    &&& cell_text(c[18]) == Some(row.backdrop_path@)
    &&& cell_text(c[19]) == Some(row.homepage_url@)
    &&& cell_opt_int(c[20]) == Some(row.total_seasons)
    &&& cell_opt_int(c[21]) == Some(row.total_episodes)
    &&& cell_text(c[22]) == Some(row.metadata_refreshed_at@)
    &&& cell_text(c[23]) == Some(row.library_status@)
    &&& cell_int(c[24]) matches Some(v) && row.is_favorite == (v != 0)
    &&& cell_text(c[26]) == Some(row.notes@)
    &&& cell_int(c[27]) == Some(row.priority)
    &&& cell_opt_int(c[28]) == Some(row.queue_position)
    &&& cell_text(c[29]) == Some(row.added_at@)
    &&& cell_text(c[30]) == Some(row.started_at@)
    &&& cell_text(c[31]) == Some(row.completed_at@)
    &&& cell_text(c[32]) == Some(row.last_watched_at@)
    &&& cell_int(c[33]) == Some(row.new_episodes_count)
    &&& cell_int(c[34]) == Some(row.watched_count)
    &&& cell_int(c[35]) == Some(row.progress_total)
}

/// Reads a summary row from its cells; nothing when a column is not of
/// its kind.
pub fn summary_row_from_cells(cells: &Vec<SqlCell>) -> (r: Option<MediaSummaryRow>)
    ensures
        r is Some <==> summary_cells_fit(cells@),
        r matches Some(row) ==> row_of_cells(row, cells@),
{
    if cells.len() < 37 {
        return None;
    }
    let id = match int_cell(cells, 0) {
        Some(v) => v,
        None => return None,
    };
    let media_title_id = match int_cell(cells, 1) {
        Some(v) => v,
        None => return None,
    };
    let source_key = match text_cell(cells, 2) {
        Some(v) => v,
        None => return None,
    };
    let external_id = match opt_int_cell(cells, 3) {
        Some(v) => v,
        None => return None,
    };
    let external_media_type = match opt_text_cell(cells, 4) {
        Some(v) => v,
        None => return None,
    };
    let content_type = match text_cell(cells, 5) {
        Some(v) => v,
        None => return None,
    };
    let title = match text_cell(cells, 6) {
        Some(v) => v,
        None => return None,
    };
    let original_title = match text_cell(cells, 7) {
        Some(v) => v,
        None => return None,
    };
    let overview = match text_cell(cells, 8) {
        Some(v) => v,
        None => return None,
    };
    let original_language = match text_cell(cells, 9) {
        Some(v) => v,
        None => return None,
    };
    let release_date = match text_cell(cells, 10) {
        Some(v) => v,
        None => return None,
    };
    let first_air_date = match text_cell(cells, 11) {
        Some(v) => v,
        None => return None,
    };
    let last_air_date = match text_cell(cells, 12) {
        Some(v) => v,
        None => return None,
    };
    let runtime_minutes = match opt_int_cell(cells, 13) {
        Some(v) => v,
        None => return None,
    };
    let episode_runtime_minutes = match opt_int_cell(cells, 14) {
        Some(v) => v,
        None => return None,
    };
    let external_status = match text_cell(cells, 15) {
        Some(v) => v,
        None => return None,
    };
    let series_type = match text_cell(cells, 16) {
        Some(v) => v,
        None => return None,
    };
    let poster_path = match text_cell(cells, 17) {
        Some(v) => v,
        None => return None,
    };
    let backdrop_path = match text_cell(cells, 18) {
        Some(v) => v,
        None => return None,
    };
    let homepage_url = match text_cell(cells, 19) {
        Some(v) => v,
        None => return None,
    };
    let total_seasons = match opt_int_cell(cells, 20) {
        Some(v) => v,
        None => return None,
    };
    let total_episodes = match opt_int_cell(cells, 21) {
        Some(v) => v,
        None => return None,
    };
    let metadata_refreshed_at = match text_cell(cells, 22) {
        Some(v) => v,
        None => return None,
    };
    let library_status = match text_cell(cells, 23) {
        Some(v) => v,
        None => return None,
    };
    let is_favorite = match int_cell(cells, 24) {
        Some(v) => v != 0,
        None => return None,
    };
    let notes = match text_cell(cells, 26) {
        Some(v) => v,
        None => return None,
    };
    let priority = match int_cell(cells, 27) {
        Some(v) => v,
        None => return None,
    };
    let queue_position = match opt_int_cell(cells, 28) {
        Some(v) => v,
        None => return None,
    };
    let added_at = match text_cell(cells, 29) {
        Some(v) => v,
        None => return None,
    };
    let started_at = match text_cell(cells, 30) {
        Some(v) => v,
        None => return None,
    };
    let completed_at = match text_cell(cells, 31) {
        Some(v) => v,
        None => return None,
    };
    let last_watched_at = match text_cell(cells, 32) {
        Some(v) => v,
        None => return None,
    };
    let new_episodes_count = match int_cell(cells, 33) {
        Some(v) => v,
        None => return None,
    };
    let watched_count = match int_cell(cells, 34) {
        Some(v) => v,
        None => return None,
    };
    let progress_total = match int_cell(cells, 35) {
        Some(v) => v,
        None => return None,
    };
    Some(MediaSummaryRow {
        id,
        media_title_id,
        source_key,
        external_id,
        external_media_type,
        content_type,
        title,
        original_title,
        overview,
        original_language,
        release_date,
        first_air_date,
        last_air_date,
        runtime_minutes,
        episode_runtime_minutes,
        external_status,
        series_type,
        poster_path,
        backdrop_path,
        homepage_url,
        total_seasons,
        total_episodes,
        metadata_refreshed_at,
        library_status,
        is_favorite,
        notes,
        priority,
        queue_position,
        added_at,
        started_at,
        completed_at,
        last_watched_at,
        new_episodes_count,
        watched_count,
        progress_total,
    })
}

// ------------------------------------------------------------ summaries

/// A library entry as the library lists it: its row, its parsed type and
/// status, its progress, and what was looked up for it.
#[derive(Clone, Debug)]
pub struct MediaLibrarySummary {
    pub row: MediaSummaryRow,
    pub content_type: MediaContentType,
    pub library_status: MediaLibraryStatus,
    pub movie_watched: bool,
    pub watched_count: i64,
    pub progress_total: i64,
    pub next_episode: Option<MediaNextEpisode>,
    pub subscription_providers: Vec<MediaProviderSummary>,
    pub availability_is_stale: bool,
}

/// The progress of an entry: a movie is watched when it was completed or
/// watched, and counts as one item, done when completed; a series counts
/// its included episodes.
pub open spec fn summary_progress_of(row: MediaSummaryRow, t: MediaContentType) -> (bool, i64, i64) {
    if t == MediaContentType::Movie {
        (
            row.completed_at@.len() > 0 || row.last_watched_at@.len() > 0,
            if row.completed_at@.len() > 0 { 1i64 } else { 0i64 },
            1i64,
        )
    } else {
        (false, row.watched_count, row.progress_total)
    }
}

/// The summary of a row and its lookups, when its type and status parse.
pub open spec fn enriched_summary(
    row: MediaSummaryRow,
    lookups: (Option<MediaNextEpisode>, Vec<MediaProviderSummary>, bool),
    s: MediaLibrarySummary,
) -> bool {
    &&& MediaContentType::from_label(row.content_type@) == Some(s.content_type)
    &&& MediaLibraryStatus::from_label(row.library_status@) == Some(s.library_status)
    &&& s.row == row
    &&& (s.movie_watched, s.watched_count, s.progress_total) == summary_progress_of(row, s.content_type)
    &&& s.next_episode == lookups.0
    &&& s.subscription_providers == lookups.1
    &&& s.availability_is_stale == lookups.2
}

/// Completes a summary row with what was looked up for it. A type or
/// status that does not parse is refused with the parser's error, the type
/// first.
pub fn enrich_summary(
    row: MediaSummaryRow,
    lookups: (Option<MediaNextEpisode>, Vec<MediaProviderSummary>, bool),
) -> (r: Result<MediaLibrarySummary, MediaError>)
    ensures
        r is Ok <==> (MediaContentType::from_label(row.content_type@) is Some
            && MediaLibraryStatus::from_label(row.library_status@) is Some),
        r matches Ok(s) ==> enriched_summary(row, lookups, s),
        MediaContentType::from_label(row.content_type@) is None ==> (r matches Err(e) && e.kind
            == MediaErrorKind::Validation && e.message@ == "Media type must be MOVIE or SERIES."@),
        MediaContentType::from_label(row.content_type@) is Some && MediaLibraryStatus::from_label(
            row.library_status@,
        ) is None ==> (r matches Err(e) && e.kind == MediaErrorKind::Validation && e.message@
            == "Library status must be PLANNED, WATCHING, COMPLETED, ON_HOLD, or DROPPED."@),
{
    let content_type = match MediaContentType::from_str(row.content_type.as_str()) {
        Ok(t) => t,
        Err(e) => return Err(e),
    };
    let library_status = match MediaLibraryStatus::from_str(row.library_status.as_str()) {
        Ok(t) => t,
        Err(e) => return Err(e),
    };
    let (movie_watched, watched_count, progress_total) = summary_progress(
        content_type,
        row.completed_at.as_str(),
        row.last_watched_at.as_str(),
        row.watched_count,
        row.progress_total,
    );
    let (next_episode, subscription_providers, availability_is_stale) = lookups;
    Ok(MediaLibrarySummary {
        row,
        content_type,
        library_status,
        movie_watched,
        watched_count,
        progress_total,
        next_episode,
        subscription_providers,
        availability_is_stale,
    })
}

/// Reads the summaries of library rows: each row's columns, the lookups
/// for its title, and the summary they make.
pub fn summaries_of_rows(connection: &rusqlite::Connection, rows: Vec<Vec<SqlCell>>, include_specials: bool) -> (r:
    Result<Vec<MediaLibrarySummary>, MediaError>)
    ensures
        r matches Err(e) ==> is_database_error(e) || e.kind == MediaErrorKind::Validation,
        r matches Ok(v) ==> v@.len() == rows@.len() && forall|i: int|
            0 <= i < v@.len() ==> row_of_cells((#[trigger] v@[i]).row, rows@[i]@)
                && MediaContentType::from_label(v@[i].row.content_type@) == Some(v@[i].content_type)
                && MediaLibraryStatus::from_label(v@[i].row.library_status@) == Some(v@[i].library_status)
                && (v@[i].movie_watched, v@[i].watched_count, v@[i].progress_total)
                == summary_progress_of(v@[i].row, v@[i].content_type)
                && (v@[i].content_type != MediaContentType::Series ==> v@[i].next_episode is None),
{
    let mut out: Vec<MediaLibrarySummary> = Vec::new();
    let mut i: usize = 0;
    while i < rows.len()
        invariant
            i <= rows@.len(),
            out@.len() == i,
            forall|k: int|
                0 <= k < i ==> row_of_cells((#[trigger] out@[k]).row, rows@[k]@)
                    && MediaContentType::from_label(out@[k].row.content_type@) == Some(out@[k].content_type)
                    && MediaLibraryStatus::from_label(out@[k].row.library_status@) == Some(out@[k].library_status)
                    && (out@[k].movie_watched, out@[k].watched_count, out@[k].progress_total)
                    == summary_progress_of(out@[k].row, out@[k].content_type)
                    && (out@[k].content_type != MediaContentType::Series ==> out@[k].next_episode is None),
        decreases rows@.len() - i,
    {
        let row = match summary_row_from_cells(&rows[i]) {
            Some(row) => row,
            None => return Err(row_shape_error()),
        };
        let content_type = match MediaContentType::from_str(row.content_type.as_str()) {
            Ok(t) => t,
            Err(e) => return Err(e),
        };
        let lookups = match summary_lookups(connection, row.media_title_id, content_type, include_specials) {
            Ok(l) => l,
            Err(e) => return Err(e),
        };
        let summary = match enrich_summary(row, lookups) {
            Ok(s) => s,
            Err(e) => return Err(e),
        };
        out.push(summary);
        i = i + 1;
    }
    Ok(out)
}

impl<'a> MediaRepository<'a> {
    /// A page of the library (`library_query` for the filter, progress
    /// counted with specials as the settings say), each row completed into
    /// its summary by `summaries_of_rows`.
    pub fn list_library(&self, filter: &MediaLibraryFilter) -> (r: Result<Vec<MediaLibrarySummary>, MediaError>)
        ensures
            r matches Err(e) ==> is_database_error(e) || e.kind == MediaErrorKind::Validation,
            r matches Ok(v) ==> forall|i: int|
                0 <= i < v@.len() ==> MediaContentType::from_label((#[trigger] v@[i]).row.content_type@)
                    == Some(v@[i].content_type) && MediaLibraryStatus::from_label(v@[i].row.library_status@)
                    == Some(v@[i].library_status) && (v@[i].movie_watched, v@[i].watched_count,
                v@[i].progress_total) == summary_progress_of(v@[i].row, v@[i].content_type) && (
                v@[i].content_type != MediaContentType::Series ==> v@[i].next_episode is None),
    {
        let connection = self.database.connection();
        let include_specials = match Self::include_specials(connection) {
            Ok(b) => b,
            Err(e) => return Err(e),
        };
        let (sql, params) = library_query(filter, include_specials);
        let rows = match sql_cell_rows(connection, sql.as_str(), &params) {
            Ok(rows) => rows,
            Err(e) => return Err(MediaError::from_sql(&e)),
        };
        summaries_of_rows(connection, rows, include_specials)
    }
}

// ------------------------------------------------------------ detail

pub const ENTRY_TAGS_SQL: &'static str = "
            SELECT tag.id, tag.name, tag.created_at, tag.updated_at
            FROM obj_media_tag tag
            JOIN n2n_media_library_entry_tag mapping ON mapping.media_tag_id = tag.id
            WHERE mapping.media_library_entry_id = ?1
            ORDER BY tag.name COLLATE NOCASE
            ";

pub const ENTRY_SNAPSHOT_SQL: &'static str = "
                SELECT snapshot.id, snapshot.region_code, snapshot.source_link_url,
                       snapshot.refreshed_at, snapshot.last_refresh_status,
                       snapshot.last_refresh_error
                FROM obj_media_provider_snapshot snapshot
                WHERE snapshot.media_title_id = ?1
                  AND snapshot.region_code = ?2
                ";

pub const SNAPSHOT_PROVIDERS_SQL: &'static str = "
                SELECT id, provider_external_id, provider_name, provider_logo_path,
                       monetization_type, display_priority
                FROM obj_media_provider_availability
                WHERE snapshot_id = ?1
                ORDER BY
                    CASE monetization_type
                        WHEN 'FLATRATE' THEN 1
                        WHEN 'FREE' THEN 2
                        WHEN 'ADS' THEN 3
                        WHEN 'RENT' THEN 4
                        ELSE 5
                    END,
                    display_priority,
                    provider_name COLLATE NOCASE
                ";

/// A library entry in full: its summary, seasons, tags, streaming links,
/// the provider snapshot for the settings' region with its providers, and
/// the settings.
#[derive(Debug)]
pub struct MediaLibraryDetail {
    pub entry: MediaLibrarySummary,
    pub seasons: Vec<MediaSeasonRecord>,
    pub tags: Vec<MediaTagRecord>,
    pub streaming_links: Vec<MediaStreamingLinkRecord>,
    pub provider_snapshot: Option<MediaProviderSnapshotRecord>,
    pub providers: Vec<MediaProviderAvailabilityRecord>,
    pub settings: MediaSettingsRecord,
}

/// A snapshot row: id, region, availability page, refresh time, status and
/// error.
pub fn snapshot_from_cells(cells: &Vec<SqlCell>) -> (r: Option<MediaProviderSnapshotRecord>)
    ensures
        r is Some <==> (cells@.len() >= 6 && cell_int(cells@[0]) is Some && cell_text(cells@[1]) is Some
            && cell_text(cells@[2]) is Some && cell_text(cells@[3]) is Some && cell_text(cells@[4]) is Some
            && cell_text(cells@[5]) is Some),
        r matches Some(s) ==> cell_int(cells@[0]) == Some(s.id) && cell_text(cells@[1]) == Some(s.region_code@)
            && cell_text(cells@[2]) == Some(s.source_link_url@) && cell_text(cells@[3]) == Some(s.refreshed_at@)
            && cell_text(cells@[4]) == Some(s.last_refresh_status@) && cell_text(cells@[5]) == Some(
            s.last_refresh_error@,
        ),
{
    if cells.len() < 6 {
        return None;
    }
    let id = match int_cell(cells, 0) {
        Some(v) => v,
        None => return None,
    };
    let region_code = match text_cell(cells, 1) {
        Some(v) => v,
        None => return None,
    };
    let source_link_url = match text_cell(cells, 2) {
        Some(v) => v,
        None => return None,
    };
    let refreshed_at = match text_cell(cells, 3) {
        Some(v) => v,
        None => return None,
    };
    let last_refresh_status = match text_cell(cells, 4) {
        Some(v) => v,
        None => return None,
    };
    let last_refresh_error = match text_cell(cells, 5) {
        Some(v) => v,
        None => return None,
    };
    Some(MediaProviderSnapshotRecord { id, region_code, source_link_url, refreshed_at, last_refresh_status, last_refresh_error })
}

/// An availability row: id, provider id, name, logo, monetization type and
/// display priority.
pub fn availability_from_cells(cells: &Vec<SqlCell>) -> (r: Option<MediaProviderAvailabilityRecord>)
    ensures
        r is Some <==> (cells@.len() >= 6 && cell_int(cells@[0]) is Some && cell_int(cells@[1]) is Some
            && cell_text(cells@[2]) is Some && cell_text(cells@[3]) is Some && cell_text(cells@[4]) is Some
            && cell_int(cells@[5]) is Some),
        r matches Some(a) ==> cell_int(cells@[0]) == Some(a.id) && cell_int(cells@[1]) == Some(
            a.provider_external_id,
        ) && cell_text(cells@[2]) == Some(a.provider_name@) && cell_text(cells@[3]) == Some(
            a.provider_logo_path@,
        ) && cell_text(cells@[4]) == Some(a.monetization_type@) && cell_int(cells@[5]) == Some(
            a.display_priority,
        ),
{
    if cells.len() < 6 {
        return None;
    }
    let id = match int_cell(cells, 0) {
        Some(v) => v,
        None => return None,
    };
    let provider_external_id = match int_cell(cells, 1) {
        Some(v) => v,
        None => return None,
    };
    let provider_name = match text_cell(cells, 2) {
        Some(v) => v,
        None => return None,
    };
    let provider_logo_path = match text_cell(cells, 3) {
        Some(v) => v,
        None => return None,
    };
    let monetization_type = match text_cell(cells, 4) {
        Some(v) => v,
        None => return None,
    };
    let display_priority = match int_cell(cells, 5) {
        Some(v) => v,
        None => return None,
    };
    Some(MediaProviderAvailabilityRecord {
        id,
        provider_external_id,
        provider_name,
        provider_logo_path,
        monetization_type,
        display_priority,
    })
}

impl<'a> MediaRepository<'a> {
    /// A library entry in full (see `MediaLibraryDetail`); an entry that is
    /// not there is not found.
    pub fn get_detail(&self, entry_id: i64) -> (r: Result<MediaLibraryDetail, MediaError>)
        ensures
            r matches Err(e) ==> database_or_not_found(e, "Media library entry was not found."@)
                || e.kind == MediaErrorKind::Validation,
            r matches Ok(d) ==> MediaContentType::from_label(d.entry.row.content_type@) == Some(
                d.entry.content_type,
            ) && MediaLibraryStatus::from_label(d.entry.row.library_status@) == Some(d.entry.library_status)
                && (d.entry.movie_watched, d.entry.watched_count, d.entry.progress_total)
                == summary_progress_of(d.entry.row, d.entry.content_type) && (d.provider_snapshot is None
                ==> d.providers@.len() == 0),
    {
        let connection = self.database.connection();
        let settings = match self.get_settings() {
            Ok(s) => s,
            Err(e) => return Err(e),
        };
        let include_specials = settings.include_specials_in_completion;
        let mut sql = summary_select_chars(include_specials);
        extend_str(&mut sql, " WHERE entry.id = ?1");
        let query = string_of(&sql);
        let key = int_statement(ENTRY_TAGS_SQL, entry_id);
        // The summary query takes the same one parameter, the entry id.
        let rows = match sql_cell_rows(connection, query.as_str(), &key.params) {
            Ok(rows) => rows,
            Err(e) => return Err(MediaError::from_sql(&e)),
        };
        if rows.len() == 0 {
            return Err(MediaError::not_found("Media library entry was not found."));
        }
        let mut found: Vec<Vec<SqlCell>> = rows;
        let first = found.remove(0);
        let mut one_row: Vec<Vec<SqlCell>> = Vec::new();
        one_row.push(first);
        let mut summaries = match summaries_of_rows(connection, one_row, include_specials) {
            Ok(v) => v,
            Err(e) => return Err(e),
        };
        let entry = summaries.remove(0);
        let seasons = match load_seasons(connection, entry.row.media_title_id, include_specials) {
            Ok(s) => s,
            Err(e) => return Err(e),
        };
        let tag_rows = match sql_tag_rows(connection, key.sql, &key.params) {
            Ok(rows) => rows,
            Err(e) => return Err(MediaError::from_sql(&e)),
        };
        let tags = tag_records(tag_rows);
        let streaming_links = match self.list_streaming_links(entry_id) {
            Ok(l) => l,
            Err(e) => return Err(e),
        };
        let mut snapshot_params: Vec<SqlParam> = Vec::new();
        snapshot_params.push(SqlParam::Integer(entry.row.media_title_id));
        snapshot_params.push(SqlParam::Text(string_of(&chars_of(settings.region_code.as_str()))));
        let snapshot_rows = match sql_cell_rows(connection, ENTRY_SNAPSHOT_SQL, &snapshot_params) {
            Ok(rows) => rows,
            Err(e) => return Err(MediaError::from_sql(&e)),
        };
        let provider_snapshot = if snapshot_rows.len() > 0 {
            match snapshot_from_cells(&snapshot_rows[0]) {
                Some(s) => Some(s),
                None => return Err(row_shape_error()),
            }
        } else {
            None
        };
        let mut providers: Vec<MediaProviderAvailabilityRecord> = Vec::new();
        match &provider_snapshot {
            Some(snapshot) => {
                let q = int_statement(SNAPSHOT_PROVIDERS_SQL, snapshot.id);
                let rows = match sql_cell_rows(connection, q.sql, &q.params) {
                    Ok(rows) => rows,
                    Err(e) => return Err(MediaError::from_sql(&e)),
                };
                let mut i: usize = 0;
                while i < rows.len()
                    invariant
                        i <= rows@.len(),
                    decreases rows@.len() - i,
                {
                    match availability_from_cells(&rows[i]) {
                        Some(a) => providers.push(a),
                        None => return Err(row_shape_error()),
                    }
                    i = i + 1;
                }
            },
            None => {},
        }
        Ok(MediaLibraryDetail { entry, seasons, tags, streaming_links, provider_snapshot, providers, settings })
    }
}

impl<'a> crate::media_service::MediaLibraryService<'a> {
    /// A page of the library (`MediaRepository::list_library`).
    pub fn list(&self, filter: &MediaLibraryFilter) -> (r: Result<Vec<MediaLibrarySummary>, MediaError>)
        ensures
            r matches Err(e) ==> is_database_error(e) || e.kind == MediaErrorKind::Validation,
            r matches Ok(v) ==> forall|i: int|
                0 <= i < v@.len() ==> MediaContentType::from_label((#[trigger] v@[i]).row.content_type@)
                    == Some(v@[i].content_type) && (v@[i].movie_watched, v@[i].watched_count,
                v@[i].progress_total) == summary_progress_of(v@[i].row, v@[i].content_type),
    {
        self.repository.list_library(filter)
    }

    /// A library entry in full (`MediaRepository::get_detail`).
    pub fn get(&self, entry_id: i64) -> (r: Result<MediaLibraryDetail, MediaError>)
        ensures
            r matches Err(e) ==> database_or_not_found(e, "Media library entry was not found."@)
                || e.kind == MediaErrorKind::Validation,
    {
        self.repository.get_detail(entry_id)
    }
}

} // verus!
