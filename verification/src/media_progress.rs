//! Watched state and the watch-next queue of the media library: the
//! statements that record what was watched, the status a title moves to,
//! and the queue's order. Each change runs in one transaction; the caller
//! reloads the entry afterwards.
use crate::database::{
    is_database_error, lookup_outcome, sql_begin, sql_commit, sql_execute, sql_i64_rows, sql_i64_value, sql_in,
    sql_optional_i64, sql_optional_i64_pair, sql_optional_i64_text, sql_optional_text_pair,
    sql_text_value, SqlParam,
};
use crate::media::{
    automatic_series_status, MediaError, MediaErrorKind, MediaLibraryStatus, MediaSettingsRecord,
    ProgressFacts, UpdateMediaSettingsInput,
};
use crate::media_repository::{database_or_not_found, MediaRepository};
use crate::text::{chars_eq_str, chars_of, string_of, trim, trim_chars, upper_ascii, upper_ascii_chars};
use crate::media_query::{int_arg, params_view, text_arg};
use crate::media_repository::{PARK_QUEUE_SQL, QUEUED_ENTRIES_SQL, QUEUE_POSITION_SQL};
use crate::statements::{
    renumber_queue, renumbering, run_logged, StatementView,
    flag_arg, flag_param, int_param, int_statement, text_param, owned_text_param, run_statement, run_statements,
    statement_view, swap_statements, SqlStatement,
};
use vstd::prelude::*;

verus! {

/// The status a movie moves to when it is marked watched or unwatched:
/// watched completes it unless it is on hold or dropped; unwatched takes a
/// completed movie back to planned.
pub open spec fn movie_status(current: MediaLibraryStatus, is_watched: bool) -> MediaLibraryStatus {
    if is_watched {
        if current.is_protected() {
            current
        } else {
            MediaLibraryStatus::Completed
        }
    } else if current == MediaLibraryStatus::Completed {
        MediaLibraryStatus::Planned
    } else {
        current
    }
}

pub fn movie_status_after(current: MediaLibraryStatus, is_watched: bool) -> (r: MediaLibraryStatus)
    ensures
        r == movie_status(current, is_watched),
{
    if is_watched {
        if current.protects_from_automatic_transition() {
            current
        } else {
            MediaLibraryStatus::Completed
        }
    } else if current == MediaLibraryStatus::Completed {
        MediaLibraryStatus::Planned
    } else {
        current
    }
}

/// Marking a movie watched completes it, except that an on-hold or dropped
/// movie keeps its status; marking it unwatched takes a completed movie back
/// to planned and leaves any other status alone.
pub proof fn movie_watch_transitions(current: MediaLibraryStatus)
    ensures
        current == MediaLibraryStatus::OnHold ==> movie_status(current, true)
            == MediaLibraryStatus::OnHold,
        current == MediaLibraryStatus::Dropped ==> movie_status(current, true)
            == MediaLibraryStatus::Dropped,
        current != MediaLibraryStatus::OnHold && current != MediaLibraryStatus::Dropped
            ==> movie_status(current, true) == MediaLibraryStatus::Completed,
        current == MediaLibraryStatus::Completed ==> movie_status(current, false)
            == MediaLibraryStatus::Planned,
        current != MediaLibraryStatus::Completed ==> movie_status(current, false) == current,
{
}

/// A move in the watch-next queue: one place up or down.
pub open spec fn queue_step(direction: Seq<char>) -> Option<int> {
    let d = upper_ascii(trim(direction));
    if d == "UP"@ {
        Some(-1)
    } else if d == "DOWN"@ {
        Some(1)
    } else {
        None
    }
}

/// The position a move aims at, when the direction is known and the
/// position is representable.
pub fn queue_target(current: i64, direction: &str) -> (r: Result<Option<i64>, MediaError>)
    ensures
        queue_step(direction@) is None <==> r is Err,
        r matches Err(e) ==> e.kind == MediaErrorKind::Validation && e.message@
            == "Watch Next direction must be UP or DOWN."@,
        r matches Ok(t) ==> match queue_step(direction@) {
            Some(step) => if i64::MIN <= current + step <= i64::MAX {
                t == Some((current + step) as i64)
            } else {
                t is None
            },
            None => false,
        },
{
    let d = upper_ascii_chars(&trim_chars(&chars_of(direction)));
    if chars_eq_str(&d, "UP") {
        Ok(current.checked_sub(1))
    } else if chars_eq_str(&d, "DOWN") {
        Ok(current.checked_add(1))
    } else {
        Err(MediaError::validation("Watch Next direction must be UP or DOWN."))
    }
}

pub(crate) fn one(a: i64) -> (r: Vec<SqlParam>)
    ensures
        r@ == seq![SqlParam::Integer(a)],
{
    let mut params: Vec<SqlParam> = Vec::new();
    params.push(SqlParam::Integer(a));
    params
}

pub(crate) fn two(a: i64, b: i64) -> (r: Vec<SqlParam>)
    ensures
        r@ == seq![SqlParam::Integer(a), SqlParam::Integer(b)],
{
    let mut params: Vec<SqlParam> = Vec::new();
    params.push(SqlParam::Integer(a));
    params.push(SqlParam::Integer(b));
    params
}

pub(crate) fn check(result: Result<usize, rusqlite::Error>) -> (r: Result<usize, MediaError>)
    ensures
        r matches Err(e) ==> is_database_error(e),
        result matches Ok(n) ==> r == Ok::<usize, MediaError>(n),
{
    match result {
        Ok(n) => Ok(n),
        Err(e) => Err(MediaError::from_sql(&e)),
    }
}

/// What a progress change can fail with: the database, a missing row, or
/// an unreadable stored status.
pub open spec fn progress_error(e: MediaError) -> bool {
    is_database_error(e) || e.kind == MediaErrorKind::NotFound || e.kind == MediaErrorKind::Validation
}

pub const SAVE_SETTINGS_SQL: &'static str = "
            UPDATE obj_media_setting
            SET region_code = ?1,
                metadata_language = ?2,
                include_specials_in_completion = ?3,
                updated_at = datetime('now', 'localtime')
            WHERE id = 1
            ";

pub const ENTRY_QUEUE_POSITION_SQL: &'static str = "SELECT queue_position FROM obj_media_library_entry WHERE id = ?1";

pub const ENTRY_AT_POSITION_SQL: &'static str = "SELECT id FROM obj_media_library_entry WHERE queue_position = ?1";

pub const PARK_ENTRY_SQL: &'static str = "UPDATE obj_media_library_entry SET queue_position = -1 WHERE id = ?1";

pub const SET_ENTRY_POSITION_SQL: &'static str = "UPDATE obj_media_library_entry SET queue_position = ?2 WHERE id = ?1";

pub const MOVE_ENTRY_SQL: &'static str = "
                UPDATE obj_media_library_entry
                SET queue_position = ?2, updated_at = datetime('now', 'localtime')
                WHERE id = ?1
                ";

/// The statement that saves the settings: the region trimmed and
/// upper-cased, the language trimmed, and the specials flag as 1 or 0.
pub fn settings_statement(input: &UpdateMediaSettingsInput) -> (r: SqlStatement)
    ensures
        statement_view(r) == (
            SAVE_SETTINGS_SQL@,
            seq![
                text_arg(upper_ascii(trim(input.region_code@))),
                text_arg(trim(input.metadata_language@)),
                flag_arg(input.include_specials_in_completion),
            ],
        ),
{
    let mut params: Vec<SqlParam> = Vec::new();
    params.push(
        owned_text_param(string_of(&upper_ascii_chars(&trim_chars(&chars_of(input.region_code.as_str()))))),
    );
    params.push(owned_text_param(string_of(&trim_chars(&chars_of(input.metadata_language.as_str())))));
    params.push(flag_param(input.include_specials_in_completion));
    let r = SqlStatement { sql: SAVE_SETTINGS_SQL, params };
    assert(params_view(r.params@) =~= seq![
        text_arg(upper_ascii(trim(input.region_code@))),
        text_arg(trim(input.metadata_language@)),
        flag_arg(input.include_specials_in_completion),
    ]);
    r
}


pub const EPISODE_PROGRESS_SQL: &'static str = "
            INSERT INTO obj_media_episode_progress (
                episode_id, is_watched, watched_at
            )
            VALUES (
                ?1, ?2,
                CASE
                    WHEN ?2 = 1 THEN COALESCE(NULLIF(?3, ''), datetime('now', 'localtime'))
                    ELSE ''
                END
            )
            ON CONFLICT (episode_id) DO UPDATE SET
                is_watched = excluded.is_watched,
                watched_at = excluded.watched_at,
                updated_at = datetime('now', 'localtime')
            ";

/// An episode's watched state: watched or not, and the trimmed time it was
/// watched at (blank for now).
pub fn episode_progress_statement(episode_id: i64, is_watched: bool, watched_at: &str) -> (r: SqlStatement)
    ensures
        statement_view(r) == (
            EPISODE_PROGRESS_SQL@,
            seq![int_arg(episode_id), flag_arg(is_watched), text_arg(trim(watched_at@))],
        ),
{
    let mut p: Vec<SqlParam> = Vec::new();
    p.push(int_param(episode_id));
    p.push(flag_param(is_watched));
    p.push(owned_text_param(string_of(&trim_chars(&chars_of(watched_at)))));
    let r = SqlStatement { sql: EPISODE_PROGRESS_SQL, params: p };
    assert(params_view(r.params@) =~= seq![int_arg(episode_id), flag_arg(is_watched), text_arg(trim(watched_at@))]);
    r
}

pub const SERIES_STATUS_SQL: &'static str = "
            UPDATE obj_media_library_entry
            SET library_status = ?2,
                started_at = CASE
                    WHEN ?2 IN ('WATCHING', 'COMPLETED') AND started_at = ''
                        THEN COALESCE(NULLIF(?3, ''), datetime('now', 'localtime'))
                    ELSE started_at
                END,
                completed_at = CASE
                    WHEN ?2 = 'COMPLETED' AND completed_at = ''
                        THEN datetime('now', 'localtime')
                    WHEN ?2 <> 'COMPLETED' THEN ''
                    ELSE completed_at
                END,
                last_watched_at = ?3,
                new_episodes_count = CASE
                    WHEN ?4 = 1 AND ?2 = 'COMPLETED' THEN 0
                    ELSE new_episodes_count
                END,
                updated_at = datetime('now', 'localtime')
            WHERE id = ?1
            ";

/// A series moved to `next`, with its last watch time, clearing its new
/// episode count on completion when `clear_new` holds.
pub fn series_status_statement(entry_id: i64, next: MediaLibraryStatus, last_watched: String, clear_new: bool) -> (r:
    SqlStatement)
    ensures
        statement_view(r) == (
            SERIES_STATUS_SQL@,
            seq![int_arg(entry_id), text_arg(next.label()), text_arg(last_watched@), flag_arg(clear_new)],
        ),
{
    let mut p: Vec<SqlParam> = Vec::new();
    p.push(int_param(entry_id));
    p.push(text_param(next.as_str()));
    p.push(owned_text_param(last_watched));
    p.push(flag_param(clear_new));
    let r = SqlStatement { sql: SERIES_STATUS_SQL, params: p };
    assert(params_view(r.params@) =~= seq![
        int_arg(entry_id),
        text_arg(next.label()),
        text_arg(last_watched@),
        flag_arg(clear_new),
    ]);
    r
}

pub const MOVIE_WATCHED_SQL: &'static str = "
                UPDATE obj_media_library_entry
                SET library_status = ?2,
                    started_at = CASE
                        WHEN started_at = '' THEN COALESCE(NULLIF(?3, ''), datetime('now', 'localtime'))
                        ELSE started_at
                    END,
                    completed_at = COALESCE(NULLIF(?3, ''), datetime('now', 'localtime')),
                    last_watched_at = COALESCE(NULLIF(?3, ''), datetime('now', 'localtime')),
                    updated_at = datetime('now', 'localtime')
                WHERE id = ?1
                ";

pub const MOVIE_UNWATCHED_SQL: &'static str = "
                UPDATE obj_media_library_entry
                SET library_status = ?2,
                    completed_at = '',
                    last_watched_at = '',
                    updated_at = datetime('now', 'localtime')
                WHERE id = ?1
                ";

/// A movie moved to `next`: when watched, with the trimmed time it was
/// watched at (blank for now) as its start, completion and last watch;
/// when not, with those times cleared.
pub fn movie_status_statement(entry_id: i64, next: MediaLibraryStatus, is_watched: bool, watched_at: &str) -> (r:
    SqlStatement)
    ensures
        statement_view(r) == (if is_watched {
            (
                MOVIE_WATCHED_SQL@,
                seq![int_arg(entry_id), text_arg(next.label()), text_arg(trim(watched_at@))],
            )
        } else {
            (MOVIE_UNWATCHED_SQL@, seq![int_arg(entry_id), text_arg(next.label())])
        }),
{
    let mut p: Vec<SqlParam> = Vec::new();
    p.push(int_param(entry_id));
    p.push(text_param(next.as_str()));
    if is_watched {
        p.push(owned_text_param(string_of(&trim_chars(&chars_of(watched_at)))));
        let r = SqlStatement { sql: MOVIE_WATCHED_SQL, params: p };
        assert(params_view(r.params@) =~= seq![
            int_arg(entry_id),
            text_arg(next.label()),
            text_arg(trim(watched_at@)),
        ]);
        r
    } else {
        let r = SqlStatement { sql: MOVIE_UNWATCHED_SQL, params: p };
        assert(params_view(r.params@) =~= seq![int_arg(entry_id), text_arg(next.label())]);
        r
    }
}

pub const LEAVE_WATCH_NEXT_SQL: &'static str = "
            UPDATE obj_media_library_entry
            SET queue_position = NULL, updated_at = datetime('now', 'localtime')
            WHERE id = ?1
            ";

/// Takes an entry out of the watch-next queue and renumbers the rest: it
/// is left (`LEAVE_WATCH_NEXT_SQL`; when no row changed the entry is not
/// found and nothing more is run), the queue is parked, and each queued
/// entry, in its order, takes the next place from 1 (`renumbering`).
fn leave_watch_next(inner: &rusqlite::Connection, entry_id: i64, log: &mut Ghost<Seq<StatementView>>) -> (r: Result<
    Ghost<Seq<i64>>,
    MediaError,
>)
    ensures
        r matches Err(e) ==> database_or_not_found(e, "Media library entry was not found."@),
        r matches Ok(ids) ==> final(log)@ == old(log)@ + seq![
            (LEAVE_WATCH_NEXT_SQL@, seq![int_arg(entry_id)]),
            (PARK_QUEUE_SQL@, seq![]),
        ] + renumbering(QUEUE_POSITION_SQL@, ids@),
{
    let ghost start = log@;
    let changed = match run_logged(inner, &int_statement(LEAVE_WATCH_NEXT_SQL, entry_id), log) {
        Ok(n) => n,
        Err(e) => return Err(e),
    };
    if changed == 0 {
        return Err(MediaError::not_found("Media library entry was not found."));
    }
    let ids = match renumber_queue(inner, QUEUED_ENTRIES_SQL, PARK_QUEUE_SQL, QUEUE_POSITION_SQL, log) {
        Ok(ids) => ids,
        Err(e) => return Err(e),
    };
    assert(log@ =~= start + seq![
        (LEAVE_WATCH_NEXT_SQL@, seq![int_arg(entry_id)]),
        (PARK_QUEUE_SQL@, seq![]),
    ] + renumbering(QUEUE_POSITION_SQL@, ids@));
    Ok(ids)
}

pub const REFRESH_FAILED_SQL: &'static str = "
            INSERT INTO obj_media_provider_snapshot (
                media_title_id, region_code, source_key, last_refresh_status, last_refresh_error
            )
            SELECT entry.media_title_id, setting.region_code, 'tmdb', 'FAILED', ?2
            FROM obj_media_library_entry entry
            JOIN obj_media_setting setting ON setting.id = 1
            WHERE entry.id = ?1
            ON CONFLICT (media_title_id, region_code) DO UPDATE SET
                last_refresh_status = 'FAILED',
                last_refresh_error = excluded.last_refresh_error,
                updated_at = datetime('now', 'localtime')
            ";

/// The statement that records a failed metadata refresh of an entry, with
/// the error text.
pub fn refresh_failure_statement(entry_id: i64, error: &str) -> (r: SqlStatement)
    ensures
        statement_view(r) == (REFRESH_FAILED_SQL@, seq![int_arg(entry_id), text_arg(error@)]),
{
    let mut p: Vec<SqlParam> = Vec::new();
    p.push(int_param(entry_id));
    p.push(text_param(error));
    let r = SqlStatement { sql: REFRESH_FAILED_SQL, params: p };
    assert(params_view(r.params@) =~= seq![int_arg(entry_id), text_arg(error@)]);
    r
}

impl<'a> MediaRepository<'a> {
    /// Whether the settings count specials (season 0) toward completion.
    pub fn include_specials(connection: &rusqlite::Connection) -> (r: Result<bool, MediaError>)
        ensures
            r matches Err(e) ==> is_database_error(e),
    {
        let none: Vec<SqlParam> = Vec::new();
        match sql_i64_value(
            connection,
            "
                SELECT include_specials_in_completion
                FROM obj_media_setting WHERE id = 1
                ",
            &none,
        ) {
            Ok(v) => Ok(v != 0),
            Err(e) => Err(MediaError::from_sql(&e)),
        }
    }

    fn included_count(
        connection: &rusqlite::Connection,
        sql: &str,
        title_id: i64,
        include_specials: bool,
    ) -> (r: Result<i64, MediaError>)
        ensures
            r matches Err(e) ==> is_database_error(e),
    {
        match sql_i64_value(connection, sql, &two(title_id, if include_specials { 1 } else { 0 })) {
            Ok(v) => Ok(v),
            Err(e) => Err(MediaError::from_sql(&e)),
        }
    }

    /// How many episodes of a title count toward completion: those still
    /// in the source, specials only when the settings count them.
    pub fn included_episode_count(connection: &rusqlite::Connection, title_id: i64, include_specials: bool) -> (r:
        Result<i64, MediaError>)
        ensures
            r matches Err(e) ==> is_database_error(e),
    {
        Self::included_count(
            connection,
            "
                SELECT COUNT(*)
                FROM obj_media_episode
                WHERE media_title_id = ?1
                  AND is_present_in_source = 1
                  AND (?2 = 1 OR season_number <> 0)
                ",
            title_id,
            include_specials,
        )
    }

    /// The season and episode number of an episode of the entry's title.
    pub fn assert_episode_ownership(
        connection: &rusqlite::Connection,
        entry_id: i64,
        episode_id: i64,
    ) -> (r: Result<(i64, i64), MediaError>)
        ensures
            r matches Err(e) ==> database_or_not_found(
                e,
                "The episode does not belong to this library entry."@,
            ),
    {
        let found = sql_optional_i64_pair(
            connection,
            "
                SELECT episode.season_number, episode.episode_number
                FROM obj_media_episode episode
                JOIN obj_media_library_entry entry ON entry.media_title_id = episode.media_title_id
                WHERE entry.id = ?1 AND episode.id = ?2
                ",
            &two(entry_id, episode_id),
        );
        lookup_outcome(
            found,
            MediaError::not_found("The episode does not belong to this library entry."),
        )
    }

    /// Records an episode as watched (at the given time, or now) or
    /// unwatched.
    pub fn write_episode_progress(
        connection: &rusqlite::Connection,
        episode_id: i64,
        is_watched: bool,
        watched_at: &str,
    ) -> (r: Result<(), MediaError>)
        ensures
            r matches Err(e) ==> is_database_error(e),
    {
        let statement = episode_progress_statement(episode_id, is_watched, watched_at);
        match check(sql_execute(connection, statement.sql, &statement.params)) {
            Ok(_) => Ok(()),
            Err(e) => Err(e),
        }
    }

    /// Moves a series to the status its watched episodes call for (see
    /// `automatic_series_status`), keeping the start, completion and last
    /// watch times in step, and clearing its new-episode count on
    /// completion when asked to.
    pub fn recalculate_series_status(
        connection: &rusqlite::Connection,
        entry_id: i64,
        clear_new_when_complete: bool,
    ) -> (r: Result<MediaLibraryStatus, MediaError>)
        ensures
            r matches Err(e) ==> database_or_not_found(e, "Series library entry was not found."@)
                || e.kind == MediaErrorKind::Validation,
    {
        let (title_id, current_text) = match lookup_outcome(
            sql_optional_i64_text(
            connection,
            "
                SELECT entry.media_title_id, entry.library_status
                FROM obj_media_library_entry entry
                JOIN obj_media_title title ON title.id = entry.media_title_id
                WHERE entry.id = ?1 AND title.content_type = 'SERIES'
                ",
            &one(entry_id),
        ),
            MediaError::not_found("Series library entry was not found."),
        ) {
            Ok(v) => v,
            Err(e) => return Err(e),
        };
        let include_specials = match Self::include_specials(connection) {
            Ok(b) => b,
            Err(e) => return Err(e),
        };
        let total = match Self::included_episode_count(connection, title_id, include_specials) {
            Ok(n) => n,
            Err(e) => return Err(e),
        };
        let watched = match Self::included_count(
            connection,
            "
                SELECT COUNT(*)
                FROM obj_media_episode episode
                JOIN obj_media_episode_progress progress ON progress.episode_id = episode.id
                WHERE episode.media_title_id = ?1
                  AND episode.is_present_in_source = 1
                  AND (?2 = 1 OR episode.season_number <> 0)
                  AND progress.is_watched = 1
                ",
            title_id,
            include_specials,
        ) {
            Ok(n) => n,
            Err(e) => return Err(e),
        };
        let current = match MediaLibraryStatus::from_str(current_text.as_str()) {
            Ok(s) => s,
            Err(e) => return Err(e),
        };
        let next = automatic_series_status(current, ProgressFacts { watched, total });
        let last_watched = match sql_text_value(
            connection,
            "
            SELECT COALESCE(MAX(progress.watched_at), '')
            FROM obj_media_episode episode
            JOIN obj_media_episode_progress progress ON progress.episode_id = episode.id
            WHERE episode.media_title_id = ?1 AND progress.is_watched = 1
            ",
            &one(title_id),
        ) {
            Ok(t) => t,
            Err(e) => return Err(MediaError::from_sql(&e)),
        };
        let statement = series_status_statement(entry_id, next, last_watched, clear_new_when_complete);
        match check(sql_execute(connection, statement.sql, &statement.params)) {
            Ok(_) => Ok(next),
            Err(e) => Err(e),
        }
    }

    /// Marks a movie watched (at the given time, or now) or unwatched, and
    /// moves it to `movie_status`; only movies can be marked this way.
    pub fn set_movie_watched(&self, entry_id: i64, is_watched: bool, watched_at: &str) -> (r: Result<
        MediaLibraryStatus,
        MediaError,
    >)
        ensures
            r matches Err(e) ==> database_or_not_found(e, "Media library entry was not found."@)
                || e.kind == MediaErrorKind::Validation,
            r matches Ok(s) ==> exists|current: MediaLibraryStatus|
                s == #[trigger] movie_status(current, is_watched),
    {
        let connection = self.database.connection();
        let transaction = match sql_begin(connection) {
            Ok(t) => t,
            Err(e) => return Err(MediaError::from_sql(&e)),
        };
        let inner = sql_in(&transaction);
        let (content_type, current_text) = match lookup_outcome(
            sql_optional_text_pair(
            inner,
            "
                SELECT title.content_type, entry.library_status
                FROM obj_media_library_entry entry
                JOIN obj_media_title title ON title.id = entry.media_title_id
                WHERE entry.id = ?1
                ",
            &one(entry_id),
        ),
            MediaError::not_found("Media library entry was not found."),
        ) {
            Ok(v) => v,
            Err(e) => return Err(e),
        };
        if !chars_eq_str(&chars_of(content_type.as_str()), "MOVIE") {
            return Err(MediaError::validation("Movie watched state can only be set on a movie."));
        }
        let current = match MediaLibraryStatus::from_str(current_text.as_str()) {
            Ok(s) => s,
            Err(e) => return Err(e),
        };
        let next = movie_status_after(current, is_watched);
        let statement = movie_status_statement(entry_id, next, is_watched, watched_at);
        let outcome = sql_execute(inner, statement.sql, &statement.params);
        match check(outcome) {
            Ok(_) => {},
            Err(e) => return Err(e),
        }
        assert(next == movie_status(current, is_watched));
        match sql_commit(transaction) {
            Ok(()) => Ok(next),
            Err(e) => Err(MediaError::from_sql(&e)),
        }
    }

    /// Marks one episode of the entry's series watched or unwatched, then
    /// recalculates the series' status.
    pub fn set_episode_watched(
        &self,
        entry_id: i64,
        episode_id: i64,
        is_watched: bool,
        watched_at: &str,
    ) -> (r: Result<MediaLibraryStatus, MediaError>)
        ensures
            r matches Err(e) ==> progress_error(e),
    {
        let connection = self.database.connection();
        let transaction = match sql_begin(connection) {
            Ok(t) => t,
            Err(e) => return Err(MediaError::from_sql(&e)),
        };
        let inner = sql_in(&transaction);
        match Self::assert_episode_ownership(inner, entry_id, episode_id) {
            Ok(_) => {},
            Err(e) => return Err(e),
        }
        match Self::write_episode_progress(inner, episode_id, is_watched, watched_at) {
            Ok(()) => {},
            Err(e) => return Err(e),
        }
        let next = match Self::recalculate_series_status(inner, entry_id, true) {
            Ok(s) => s,
            Err(e) => return Err(e),
        };
        match sql_commit(transaction) {
            Ok(()) => Ok(next),
            Err(e) => Err(MediaError::from_sql(&e)),
        }
    }

    /// Writes the same watched state to each episode, then recalculates the
    /// series' status.
    fn write_all_and_recalculate(
        connection: &rusqlite::Connection,
        entry_id: i64,
        episode_ids: &Vec<i64>,
        is_watched: bool,
    ) -> (r: Result<MediaLibraryStatus, MediaError>)
        ensures
            r matches Err(e) ==> progress_error(e),
    {
        let mut i: usize = 0;
        while i < episode_ids.len()
            invariant
                i <= episode_ids.len(),
            decreases episode_ids.len() - i,
        {
            match Self::write_episode_progress(connection, episode_ids[i], is_watched, "") {
                Ok(()) => {},
                Err(e) => return Err(e),
            }
            i = i + 1;
        }
        Self::recalculate_series_status(connection, entry_id, true)
    }

    /// Marks every present episode of a season watched or unwatched; a
    /// season with none is not found.
    pub fn set_season_watched(&self, entry_id: i64, season_number: i64, is_watched: bool) -> (r:
        Result<MediaLibraryStatus, MediaError>)
        ensures
            r matches Err(e) ==> progress_error(e),
    {
        let connection = self.database.connection();
        let transaction = match sql_begin(connection) {
            Ok(t) => t,
            Err(e) => return Err(MediaError::from_sql(&e)),
        };
        let inner = sql_in(&transaction);
        let ids = match sql_i64_rows(
            inner,
            "
                SELECT episode.id
                FROM obj_media_episode episode
                JOIN obj_media_library_entry entry ON entry.media_title_id = episode.media_title_id
                WHERE entry.id = ?1
                  AND episode.season_number = ?2
                  AND episode.is_present_in_source = 1
                ORDER BY episode.episode_number
                ",
            &two(entry_id, season_number),
        ) {
            Ok(ids) => ids,
            Err(e) => return Err(MediaError::from_sql(&e)),
        };
        if ids.len() == 0 {
            return Err(MediaError::not_found("No episodes were found for that season."));
        }
        let next = match Self::write_all_and_recalculate(inner, entry_id, &ids, is_watched) {
            Ok(s) => s,
            Err(e) => return Err(e),
        };
        match sql_commit(transaction) {
            Ok(()) => Ok(next),
            Err(e) => Err(MediaError::from_sql(&e)),
        }
    }

    /// Marks every present episode of a series watched or unwatched; a
    /// series without imported episodes cannot be.
    pub fn set_series_watched(&self, entry_id: i64, is_watched: bool) -> (r: Result<
        MediaLibraryStatus,
        MediaError,
    >)
        ensures
            r matches Err(e) ==> progress_error(e),
    {
        let connection = self.database.connection();
        let transaction = match sql_begin(connection) {
            Ok(t) => t,
            Err(e) => return Err(MediaError::from_sql(&e)),
        };
        let inner = sql_in(&transaction);
        let ids = match sql_i64_rows(
            inner,
            "
                SELECT episode.id
                FROM obj_media_episode episode
                JOIN obj_media_library_entry entry ON entry.media_title_id = episode.media_title_id
                WHERE entry.id = ?1 AND episode.is_present_in_source = 1
                ORDER BY episode.season_number, episode.episode_number
                ",
            &one(entry_id),
        ) {
            Ok(ids) => ids,
            Err(e) => return Err(MediaError::from_sql(&e)),
        };
        if ids.len() == 0 {
            return Err(MediaError::validation("This series has no imported episodes to update."));
        }
        let next = match Self::write_all_and_recalculate(inner, entry_id, &ids, is_watched) {
            Ok(s) => s,
            Err(e) => return Err(e),
        };
        match sql_commit(transaction) {
            Ok(()) => Ok(next),
            Err(e) => Err(MediaError::from_sql(&e)),
        }
    }

    /// Marks watched every present episode up to and including the given
    /// one (specials only when they count), then recalculates the status.
    pub fn mark_watched_through(&self, entry_id: i64, episode_id: i64) -> (r: Result<
        MediaLibraryStatus,
        MediaError,
    >)
        ensures
            r matches Err(e) ==> progress_error(e),
    {
        let connection = self.database.connection();
        let transaction = match sql_begin(connection) {
            Ok(t) => t,
            Err(e) => return Err(MediaError::from_sql(&e)),
        };
        let inner = sql_in(&transaction);
        let (season, episode) = match Self::assert_episode_ownership(inner, entry_id, episode_id) {
            Ok(pair) => pair,
            Err(e) => return Err(e),
        };
        let include_specials = match Self::include_specials(inner) {
            Ok(b) => b,
            Err(e) => return Err(e),
        };
        let mut params = two(entry_id, season);
        params.push(SqlParam::Integer(episode));
        params.push(SqlParam::Integer(if include_specials { 1 } else { 0 }));
        let ids = match sql_i64_rows(
            inner,
            "
                SELECT episode.id
                FROM obj_media_episode episode
                JOIN obj_media_library_entry entry ON entry.media_title_id = episode.media_title_id
                WHERE entry.id = ?1
                  AND episode.is_present_in_source = 1
                  AND (?4 = 1 OR episode.season_number <> 0)
                  AND (
                    episode.season_number < ?2
                    OR (
                        episode.season_number = ?2
                        AND episode.episode_number <= ?3
                    )
                  )
                ORDER BY episode.season_number, episode.episode_number
                ",
            &params,
        ) {
            Ok(ids) => ids,
            Err(e) => return Err(MediaError::from_sql(&e)),
        };
        let next = match Self::write_all_and_recalculate(inner, entry_id, &ids, true) {
            Ok(s) => s,
            Err(e) => return Err(e),
        };
        match sql_commit(transaction) {
            Ok(()) => Ok(next),
            Err(e) => Err(MediaError::from_sql(&e)),
        }
    }

    /// Puts an entry at the end of the watch-next queue unless it is queued
    /// already; books have their own queue.
    pub fn add_to_watch_next(&self, entry_id: i64) -> (r: Result<(), MediaError>)
        ensures
            r matches Err(e) ==> is_database_error(e) || (e.kind == MediaErrorKind::Validation
                && e.message@ == "Books use the separate Read Next queue."@),
    {
        let connection = self.database.connection();
        let transaction = match sql_begin(connection) {
            Ok(t) => t,
            Err(e) => return Err(MediaError::from_sql(&e)),
        };
        let inner = sql_in(&transaction);
        let exists = match sql_i64_value(
            inner,
            "SELECT EXISTS(
                SELECT 1 FROM obj_media_library_entry entry
                JOIN obj_media_title title ON title.id = entry.media_title_id
                WHERE entry.id = ?1 AND title.content_type <> 'BOOK'
            )",
            &one(entry_id),
        ) {
            Ok(v) => v != 0,
            Err(e) => return Err(MediaError::from_sql(&e)),
        };
        if !exists {
            return Err(MediaError::validation("Books use the separate Read Next queue."));
        }
        let none: Vec<SqlParam> = Vec::new();
        let position = match sql_i64_value(
            inner,
            "SELECT COALESCE(MAX(queue_position), 0) + 1 FROM obj_media_library_entry",
            &none,
        ) {
            Ok(p) => p,
            Err(e) => return Err(MediaError::from_sql(&e)),
        };
        match check(
            sql_execute(
                inner,
                "
            UPDATE obj_media_library_entry
            SET queue_position = COALESCE(queue_position, ?2),
                updated_at = datetime('now', 'localtime')
            WHERE id = ?1
            ",
                &two(entry_id, position),
            ),
        ) {
            Ok(_) => {},
            Err(e) => return Err(e),
        }
        match sql_commit(transaction) {
            Ok(()) => Ok(()),
            Err(e) => Err(MediaError::from_sql(&e)),
        }
    }

    /// Takes an entry out of the watch-next queue and closes the gap
    /// (`leave_watch_next`); an entry that is not there is not found.
    pub fn remove_from_watch_next(&self, entry_id: i64) -> (r: Result<(), MediaError>)
        ensures
            r matches Err(e) ==> database_or_not_found(e, "Media library entry was not found."@),
    {
        let connection = self.database.connection();
        let transaction = match sql_begin(connection) {
            Ok(t) => t,
            Err(e) => return Err(MediaError::from_sql(&e)),
        };
        let inner = sql_in(&transaction);
        let mut log: Ghost<Seq<StatementView>> = Ghost(Seq::empty());
        match leave_watch_next(inner, entry_id, &mut log) {
            Ok(_) => {},
            Err(e) => return Err(e),
        }
        match sql_commit(transaction) {
            Ok(()) => Ok(()),
            Err(e) => Err(MediaError::from_sql(&e)),
        }
    }

    /// Swaps a queued entry with its neighbour one place up or down; at the
    /// top, or with no neighbour there, nothing moves. The entry's position
    /// is read (`ENTRY_QUEUE_POSITION_SQL`; none is a validation error), the
    /// target is `queue_target`'s, the neighbour is the entry at the target
    /// (`ENTRY_AT_POSITION_SQL`), and `swap_statements` exchange the two.
    pub fn move_watch_next(&self, entry_id: i64, direction: &str) -> (r: Result<(), MediaError>)
        ensures
            r matches Err(e) ==> is_database_error(e) || e.kind == MediaErrorKind::Validation,
            queue_step(direction@) is None ==> r is Err,
    {
        let connection = self.database.connection();
        let transaction = match sql_begin(connection) {
            Ok(t) => t,
            Err(e) => return Err(MediaError::from_sql(&e)),
        };
        let inner = sql_in(&transaction);
        let read = int_statement(ENTRY_QUEUE_POSITION_SQL, entry_id);
        let current = match sql_optional_i64(inner, read.sql, &read.params) {
            Ok(Some(p)) => p,
            Ok(None) => {
                return Err(MediaError::validation("This title is not currently in Watch Next."));
            },
            Err(e) => return Err(MediaError::from_sql(&e)),
        };
        let target = match queue_target(current, direction) {
            Ok(t) => t,
            Err(e) => return Err(e),
        };
        match target {
            Some(target) => if target >= 1 {
                let find = int_statement(ENTRY_AT_POSITION_SQL, target);
                let neighbour = match sql_optional_i64(inner, find.sql, &find.params) {
                    Ok(n) => n,
                    Err(e) => return Err(MediaError::from_sql(&e)),
                };
                if let Some(neighbour_id) = neighbour {
                    let swap = swap_statements(
                        PARK_ENTRY_SQL,
                        SET_ENTRY_POSITION_SQL,
                        MOVE_ENTRY_SQL,
                        entry_id,
                        neighbour_id,
                        current,
                        target,
                    );
                    match run_statements(inner, &swap) {
                        Ok(()) => {},
                        Err(e) => return Err(e),
                    }
                }
            },
            None => {},
        }
        match sql_commit(transaction) {
            Ok(()) => Ok(()),
            Err(e) => Err(MediaError::from_sql(&e)),
        }
    }

    /// Saves the settings (`settings_statement`: region upper-cased, both
    /// codes trimmed) and moves every series to the status the new specials setting calls
    /// for, in one transaction; then reads the settings back.
    pub fn update_settings(&self, input: &UpdateMediaSettingsInput) -> (r: Result<
        MediaSettingsRecord,
        MediaError,
    >)
        ensures
            r matches Err(e) ==> database_or_not_found(e, "Series library entry was not found."@)
                || e.kind == MediaErrorKind::Validation,
    {
        let transaction = match sql_begin(self.database.connection()) {
            Ok(t) => t,
            Err(e) => return Err(MediaError::from_sql(&e)),
        };
        let inner = sql_in(&transaction);
        match run_statement(inner, &settings_statement(input)) {
            Ok(_) => {},
            Err(e) => return Err(e),
        }
        let none: Vec<SqlParam> = Vec::new();
        let entry_ids = match sql_i64_rows(
            inner,
            "
                SELECT entry.id
                FROM obj_media_library_entry entry
                JOIN obj_media_title title ON title.id = entry.media_title_id
                WHERE title.content_type = 'SERIES'
                ",
            &none,
        ) {
            Ok(ids) => ids,
            Err(e) => return Err(MediaError::from_sql(&e)),
        };
        let mut index: usize = 0;
        while index < entry_ids.len()
            invariant
                index <= entry_ids@.len(),
            decreases entry_ids@.len() - index,
        {
            match Self::recalculate_series_status(inner, entry_ids[index], false) {
                Ok(_) => {},
                Err(e) => return Err(e),
            }
            index = index + 1;
        }
        match sql_commit(transaction) {
            Ok(()) => {},
            Err(e) => return Err(MediaError::from_sql(&e)),
        }
        self.get_settings()
    }

    /// Records that refreshing an entry's metadata failed, on its provider
    /// snapshot for the settings' region.
    pub fn mark_refresh_failure(&self, entry_id: i64, error: &str) -> (r: Result<(), MediaError>)
        ensures
            r matches Err(e) ==> database_or_not_found(e, "Media library entry was not found."@),
    {
        let statement = refresh_failure_statement(entry_id, error);
        let changed = match check(sql_execute(self.database.connection(), statement.sql, &statement.params)) {
            Ok(n) => n,
            Err(e) => return Err(e),
        };
        if changed == 0 {
            Err(MediaError::not_found("Media library entry was not found."))
        } else {
            Ok(())
        }
    }
}

} // verus!
