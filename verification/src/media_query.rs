//! The query behind the media library list: the summary columns, the
//! filters the user picked, the order and the page.
use crate::database::SqlParam;
use crate::media::{MediaLibraryFilter};
use crate::text::{
    chars_eq_str, chars_of, extend_str, lower_ascii, lower_ascii_chars, string_of, trim,
    trim_chars, upper_ascii, upper_ascii_chars,
};
use vstd::prelude::*;

verus! {

pub const SUMMARY_SELECT_0: &'static str = "
            SELECT
                entry.id,
                entry.media_title_id,
                title.source_key,
                title.external_id,
                title.external_media_type,
                title.content_type,
                title.title,
                title.original_title,
                title.overview,
                title.original_language,
                title.release_date,
                title.first_air_date,
                title.last_air_date,
                title.runtime_minutes,
                title.episode_runtime_minutes,
                title.external_status,
                title.series_type,
                title.poster_path,
                title.backdrop_path,
                title.homepage_url,
                title.total_seasons,
                title.total_episodes,
                title.metadata_refreshed_at,
                entry.library_status,
                entry.is_favorite,
                entry.personal_rating,
                entry.notes,
                entry.priority,
                entry.queue_position,
                entry.added_at,
                entry.started_at,
                entry.completed_at,
                entry.last_watched_at,
                entry.new_episodes_count,
                COALESCE((
                    SELECT COUNT(*)
                    FROM obj_media_episode episode
                    JOIN obj_media_episode_progress progress ON progress.episode_id = episode.id
                    WHERE episode.media_title_id = title.id
                      AND ";

pub const SUMMARY_SELECT_1: &'static str = "
                      AND progress.is_watched = 1
                ), 0) AS watched_count,
                COALESCE((
                    SELECT COUNT(*)
                    FROM obj_media_episode episode
                    WHERE episode.media_title_id = title.id AND ";

pub const SUMMARY_SELECT_2: &'static str = "
                ), 0) AS progress_total,
                CASE
                    WHEN title.content_type = 'MOVIE' THEN
                        CASE WHEN entry.completed_at <> '' THEN 100.0 ELSE 0.0 END
                    WHEN COALESCE((
                        SELECT COUNT(*)
                        FROM obj_media_episode episode
                        WHERE episode.media_title_id = title.id AND ";

pub const SUMMARY_SELECT_3: &'static str = "
                    ), 0) = 0 THEN 0.0
                    ELSE (
                        100.0 * COALESCE((
                            SELECT COUNT(*)
                            FROM obj_media_episode episode
                            JOIN obj_media_episode_progress progress
                              ON progress.episode_id = episode.id
                            WHERE episode.media_title_id = title.id
                              AND ";

pub const SUMMARY_SELECT_4: &'static str = "
                              AND progress.is_watched = 1
                        ), 0)
                        /
                        (
                            SELECT COUNT(*)
                            FROM obj_media_episode episode
                            WHERE episode.media_title_id = title.id AND ";

pub const SUMMARY_SELECT_5: &'static str = "
                        )
                    )
                END AS progress_percent
            FROM obj_media_library_entry entry
            JOIN obj_media_title title ON title.id = entry.media_title_id
            ";

pub const TEXT_QUERY_CLAUSE: &'static str = " AND (
                    lower(title.title) LIKE lower(?)
                    OR lower(title.original_title) LIKE lower(?)
                    OR lower(title.overview) LIKE lower(?)
                    OR lower(entry.notes) LIKE lower(?)
                )";

pub const TAG_CLAUSE: &'static str = " AND EXISTS (
                    SELECT 1 FROM n2n_media_library_entry_tag mapping
                    WHERE mapping.media_library_entry_id = entry.id
                      AND mapping.media_tag_id = ?
                )";

pub const PROVIDER_CLAUSE: &'static str = " AND EXISTS (
                    SELECT 1
                    FROM obj_media_provider_snapshot snapshot
                    JOIN obj_media_provider_availability availability
                      ON availability.snapshot_id = snapshot.id
                    WHERE snapshot.media_title_id = title.id
                      AND lower(availability.provider_name) LIKE lower(?)
                )";

pub const UNWATCHED_HEAD: &'static str = "(
                    (title.content_type = 'MOVIE' AND entry.completed_at = '')
                    OR
                    (title.content_type = 'SERIES' AND EXISTS (
                        SELECT 1
                        FROM obj_media_episode episode
                        LEFT JOIN obj_media_episode_progress progress
                          ON progress.episode_id = episode.id
                        WHERE episode.media_title_id = title.id
                          AND ";

pub const UNWATCHED_TAIL: &'static str = "
                          AND COALESCE(progress.is_watched, 0) = 0
                    ))
                )";

pub const RELEASE_DATE_ORDER: &'static str = "CASE WHEN title.content_type IN ('MOVIE','BOOK') THEN title.release_date
                      ELSE title.first_air_date END ";

pub const INCLUDED_WITH_SPECIALS: &'static str = "episode.is_present_in_source = 1";

pub const INCLUDED_REGULAR: &'static str = "episode.is_present_in_source = 1 AND episode.season_number <> 0";

pub const CONTENT_TYPE_CLAUSE: &'static str = " AND title.content_type = ?";

pub const STATUS_CLAUSE: &'static str = " AND entry.library_status = ?";

pub const FAVORITE_CLAUSE: &'static str = " AND entry.is_favorite = ?";

pub const QUEUED_CLAUSE: &'static str = " AND entry.queue_position IS NOT NULL";

pub const UNQUEUED_CLAUSE: &'static str = " AND entry.queue_position IS NULL";

// ------------------------------------------------------------ parameters

/// A parameter as a value: its kind (integer, text or null), its integer,
/// its text.
pub open spec fn param_view(p: SqlParam) -> (u8, i64, Seq<char>) {
    match p {
        SqlParam::Integer(i) => int_arg(i),
        SqlParam::Text(t) => text_arg(t@),
        SqlParam::Null => (2, 0, seq![]),
    }
}

pub open spec fn int_arg(i: i64) -> (u8, i64, Seq<char>) {
    (0, i, seq![])
}

pub open spec fn text_arg(t: Seq<char>) -> (u8, i64, Seq<char>) {
    (1, 0, t)
}

pub open spec fn params_view(v: Seq<SqlParam>) -> Seq<(u8, i64, Seq<char>)> {
    v.map_values(|p: SqlParam| param_view(p))
}

fn text_param(v: &Vec<char>) -> (r: SqlParam)
    ensures
        param_view(r) == text_arg(v@),
{
    SqlParam::Text(string_of(v))
}

/// Moves the parameters of `more` to the end of `params`.
fn append_params(params: &mut Vec<SqlParam>, more: Vec<SqlParam>)
    ensures
        params_view(final(params)@) == params_view(old(params)@) + params_view(more@),
{
    let mut more = more;
    let ghost before = params@;
    let ghost added = more@;
    params.append(&mut more);
    assert(params@ =~= before + added);
    assert(params_view(params@) =~= params_view(before) + params_view(added));
}

// ------------------------------------------------------------ the summary

/// Which episodes count toward progress: specials (season 0) only when the
/// settings include them.
pub open spec fn included_episodes(include_specials: bool) -> Seq<char> {
    if include_specials {
        INCLUDED_WITH_SPECIALS@
    } else {
        INCLUDED_REGULAR@
    }
}

/// The summary columns of library entries, with progress counted over the
/// included episodes.
pub open spec fn summary_select(include_specials: bool) -> Seq<char> {
    let inc = included_episodes(include_specials);
    SUMMARY_SELECT_0@ + inc + SUMMARY_SELECT_1@ + inc + SUMMARY_SELECT_2@ + inc + SUMMARY_SELECT_3@
        + inc + SUMMARY_SELECT_4@ + inc + SUMMARY_SELECT_5@
}

pub fn summary_select_chars(include_specials: bool) -> (r: Vec<char>)
    ensures
        r@ == summary_select(include_specials),
{
    let inc = if include_specials {
        INCLUDED_WITH_SPECIALS
    } else {
        INCLUDED_REGULAR
    };
    let mut r = chars_of(SUMMARY_SELECT_0);
    extend_str(&mut r, inc);
    extend_str(&mut r, SUMMARY_SELECT_1);
    extend_str(&mut r, inc);
    extend_str(&mut r, SUMMARY_SELECT_2);
    extend_str(&mut r, inc);
    extend_str(&mut r, SUMMARY_SELECT_3);
    extend_str(&mut r, inc);
    extend_str(&mut r, SUMMARY_SELECT_4);
    extend_str(&mut r, inc);
    extend_str(&mut r, SUMMARY_SELECT_5);
    r
}

// ------------------------------------------------------------ filters

/// `%text%` around the trimmed text: a `LIKE` pattern for "contains".
pub open spec fn contains_pattern(text: Seq<char>) -> Seq<char> {
    seq!['%'] + trim(text) + seq!['%']
}

pub open spec fn query_sql(f: MediaLibraryFilter) -> Seq<char> {
    if trim(f.query@).len() > 0 {
        TEXT_QUERY_CLAUSE@
    } else {
        seq![]
    }
}

/// The text search matches title, original title, overview and notes: the
/// pattern is bound four times.
pub open spec fn query_args(f: MediaLibraryFilter) -> Seq<(u8, i64, Seq<char>)> {
    if trim(f.query@).len() > 0 {
        let p = text_arg(contains_pattern(f.query@));
        seq![p, p, p, p]
    } else {
        seq![]
    }
}

pub open spec fn attribute_sql(f: MediaLibraryFilter) -> Seq<char> {
    (if f.content_type is Some {
        CONTENT_TYPE_CLAUSE@
    } else {
        seq![]
    }) + (if f.library_status is Some {
        STATUS_CLAUSE@
    } else {
        seq![]
    }) + (if f.is_favorite is Some {
        FAVORITE_CLAUSE@
    } else {
        seq![]
    }) + (if f.tag_id is Some {
        TAG_CLAUSE@
    } else {
        seq![]
    }) + (if trim(f.provider_name@).len() > 0 {
        PROVIDER_CLAUSE@
    } else {
        seq![]
    })
}

pub open spec fn attribute_args(f: MediaLibraryFilter) -> Seq<(u8, i64, Seq<char>)> {
    (match f.content_type {
        Some(c) => seq![text_arg(c.label())],
        None => seq![],
    }) + (match f.library_status {
        Some(s) => seq![text_arg(s.label())],
        None => seq![],
    }) + (match f.is_favorite {
        Some(b) => seq![int_arg(if b { 1 } else { 0 })],
        None => seq![],
    }) + (match f.tag_id {
        Some(t) => seq![int_arg(t)],
        None => seq![],
    }) + (if trim(f.provider_name@).len() > 0 {
        seq![text_arg(contains_pattern(f.provider_name@))]
    } else {
        seq![]
    })
}

/// The watch-next filter and the unwatched filter, which take no
/// parameters.
pub open spec fn state_sql(f: MediaLibraryFilter, include_specials: bool) -> Seq<char> {
    (match f.is_watch_next {
        Some(true) => QUEUED_CLAUSE@,
        Some(false) => UNQUEUED_CLAUSE@,
        None => seq![],
    }) + (match f.has_unwatched {
        Some(b) => (if b {
            " AND "@
        } else {
            " AND NOT "@
        }) + UNWATCHED_HEAD@ + included_episodes(include_specials) + UNWATCHED_TAIL@,
        None => seq![],
    })
}

// ------------------------------------------------------------ order and page

/// `ASC` when the requested direction is `asc` in any ASCII case, `DESC`
/// otherwise.
pub open spec fn direction_word(direction: Seq<char>) -> Seq<char> {
    if lower_ascii(direction) == "asc"@ {
        "ASC"@
    } else {
        "DESC"@
    }
}

/// The `ORDER BY` terms for a sort key (trimmed, any ASCII case); unknown
/// keys sort by the time the entry was added.
pub open spec fn order_terms(sort: Seq<char>, direction: Seq<char>) -> Seq<char> {
    let key = upper_ascii(trim(sort));
    let d = direction_word(direction);
    if key == "TITLE"@ {
        "title.title COLLATE NOCASE "@ + d
    } else if key == "RECENTLY_WATCHED"@ {
        "entry.last_watched_at "@ + d + ", title.title COLLATE NOCASE ASC"@
    } else if key == "PROGRESS"@ {
        "progress_percent "@ + d + ", title.title COLLATE NOCASE ASC"@
    } else if key == "RELEASE_DATE"@ {
        RELEASE_DATE_ORDER@ + d
    } else if key == "WATCH_NEXT"@ {
        "entry.queue_position IS NULL ASC, entry.queue_position ASC"@
    } else if key == "PRIORITY"@ {
        "entry.priority "@ + d + ", entry.added_at DESC"@
    } else {
        "entry.added_at "@ + d
    }
}

/// A page holds 1 to 250 entries.
pub open spec fn page_size(limit: i64) -> i64 {
    if limit < 1 {
        1
    } else if limit > 250 {
        250
    } else {
        limit
    }
}

/// A page starts at 0 or later.
pub open spec fn page_start(offset: i64) -> i64 {
    if offset < 0 {
        0
    } else {
        offset
    }
}

/// The whole query of a library list.
pub open spec fn library_sql(f: MediaLibraryFilter, include_specials: bool) -> Seq<char> {
    summary_select(include_specials) + " WHERE 1 = 1"@ + query_sql(f) + attribute_sql(f) + state_sql(
        f,
        include_specials,
    ) + " ORDER BY "@ + order_terms(f.sort@, f.sort_direction@) + " LIMIT ? OFFSET ?"@
}

/// Its parameters, in the order of their placeholders.
pub open spec fn library_args(f: MediaLibraryFilter) -> Seq<(u8, i64, Seq<char>)> {
    query_args(f) + attribute_args(f) + seq![int_arg(page_size(f.limit)), int_arg(page_start(f.offset))]
}

fn direction_word_chars(direction: &str) -> (r: Vec<char>)
    ensures
        r@ == direction_word(direction@),
{
    let l = lower_ascii_chars(&chars_of(direction));
    if chars_eq_str(&l, "asc") {
        chars_of("ASC")
    } else {
        chars_of("DESC")
    }
}

pub fn order_terms_chars(sort: &str, direction: &str) -> (r: Vec<char>)
    ensures
        r@ == order_terms(sort@, direction@),
{
    let key = upper_ascii_chars(&trim_chars(&chars_of(sort)));
    let d = direction_word_chars(direction);
    let mut r: Vec<char>;
    if chars_eq_str(&key, "TITLE") {
        r = chars_of("title.title COLLATE NOCASE ");
        crate::text::extend_chars(&mut r, &d);
    } else if chars_eq_str(&key, "RECENTLY_WATCHED") {
        r = chars_of("entry.last_watched_at ");
        crate::text::extend_chars(&mut r, &d);
        extend_str(&mut r, ", title.title COLLATE NOCASE ASC");
    } else if chars_eq_str(&key, "PROGRESS") {
        r = chars_of("progress_percent ");
        crate::text::extend_chars(&mut r, &d);
        extend_str(&mut r, ", title.title COLLATE NOCASE ASC");
    } else if chars_eq_str(&key, "RELEASE_DATE") {
        r = chars_of(RELEASE_DATE_ORDER);
        crate::text::extend_chars(&mut r, &d);
    } else if chars_eq_str(&key, "WATCH_NEXT") {
        r = chars_of("entry.queue_position IS NULL ASC, entry.queue_position ASC");
    } else if chars_eq_str(&key, "PRIORITY") {
        r = chars_of("entry.priority ");
        crate::text::extend_chars(&mut r, &d);
        extend_str(&mut r, ", entry.added_at DESC");
    } else {
        r = chars_of("entry.added_at ");
        crate::text::extend_chars(&mut r, &d);
    }
    r
}

pub fn page_size_of(limit: i64) -> (r: i64)
    ensures
        r == page_size(limit),
{
    if limit < 1 {
        1
    } else if limit > 250 {
        250
    } else {
        limit
    }
}

pub fn page_start_of(offset: i64) -> (r: i64)
    ensures
        r == page_start(offset),
{
    if offset < 0 {
        0
    } else {
        offset
    }
}

fn query_piece(f: &MediaLibraryFilter) -> (r: (Vec<char>, Vec<SqlParam>))
    ensures
        r.0@ == query_sql(*f),
        params_view(r.1@) == query_args(*f),
{
    let q = trim_chars(&chars_of(f.query.as_str()));
    let mut params: Vec<SqlParam> = Vec::new();
    if q.len() > 0 {
        let mut pattern: Vec<char> = vec!['%'];
        crate::text::extend_chars(&mut pattern, &q);
        pattern.push('%');
        assert(pattern@ =~= contains_pattern(f.query@));
        params.push(text_param(&pattern));
        params.push(text_param(&pattern));
        params.push(text_param(&pattern));
        params.push(text_param(&pattern));
        assert(params_view(params@) =~= query_args(*f));
        (chars_of(TEXT_QUERY_CLAUSE), params)
    } else {
        assert(params_view(params@) =~= query_args(*f));
        (Vec::new(), params)
    }
}

fn attribute_piece(f: &MediaLibraryFilter) -> (r: (Vec<char>, Vec<SqlParam>))
    ensures
        r.0@ == attribute_sql(*f),
        params_view(r.1@) == attribute_args(*f),
{
    let mut sql: Vec<char> = Vec::new();
    let mut params: Vec<SqlParam> = Vec::new();
    let ghost s1 = if f.content_type is Some { CONTENT_TYPE_CLAUSE@ } else { seq![] };
    let ghost a1: Seq<(u8, i64, Seq<char>)> = match f.content_type {
        Some(c) => seq![text_arg(c.label())],
        None => seq![],
    };
    match f.content_type {
        Some(c) => {
            extend_str(&mut sql, CONTENT_TYPE_CLAUSE);
            params.push(text_param(&chars_of(c.as_str())));
        },
        None => {},
    }
    assert(sql@ =~= s1);
    assert(params_view(params@) =~= a1);
    let ghost s2 = if f.library_status is Some { STATUS_CLAUSE@ } else { seq![] };
    let ghost a2: Seq<(u8, i64, Seq<char>)> = match f.library_status {
        Some(s) => seq![text_arg(s.label())],
        None => seq![],
    };
    let ghost p2 = params@;
    match f.library_status {
        Some(s) => {
            extend_str(&mut sql, STATUS_CLAUSE);
            params.push(text_param(&chars_of(s.as_str())));
        },
        None => {},
    }
    assert(sql@ =~= s1 + s2);
    assert(params_view(params@) =~= a1 + a2);
    let ghost s3 = if f.is_favorite is Some { FAVORITE_CLAUSE@ } else { seq![] };
    let ghost a3: Seq<(u8, i64, Seq<char>)> = match f.is_favorite {
        Some(b) => seq![int_arg(if b { 1 } else { 0 })],
        None => seq![],
    };
    match f.is_favorite {
        Some(b) => {
            extend_str(&mut sql, FAVORITE_CLAUSE);
            params.push(SqlParam::Integer(if b { 1 } else { 0 }));
        },
        None => {},
    }
    assert(sql@ =~= s1 + s2 + s3);
    assert(params_view(params@) =~= a1 + a2 + a3);
    let ghost s4 = if f.tag_id is Some { TAG_CLAUSE@ } else { seq![] };
    let ghost a4: Seq<(u8, i64, Seq<char>)> = match f.tag_id {
        Some(t) => seq![int_arg(t)],
        None => seq![],
    };
    match f.tag_id {
        Some(t) => {
            extend_str(&mut sql, TAG_CLAUSE);
            params.push(SqlParam::Integer(t));
        },
        None => {},
    }
    assert(sql@ =~= s1 + s2 + s3 + s4);
    assert(params_view(params@) =~= a1 + a2 + a3 + a4);
    let provider = trim_chars(&chars_of(f.provider_name.as_str()));
    let ghost s5 = if trim(f.provider_name@).len() > 0 { PROVIDER_CLAUSE@ } else { seq![] };
    let ghost a5: Seq<(u8, i64, Seq<char>)> = if trim(f.provider_name@).len() > 0 {
        seq![text_arg(contains_pattern(f.provider_name@))]
    } else {
        seq![]
    };
    if provider.len() > 0 {
        extend_str(&mut sql, PROVIDER_CLAUSE);
        let mut pattern: Vec<char> = vec!['%'];
        crate::text::extend_chars(&mut pattern, &provider);
        pattern.push('%');
        assert(pattern@ =~= contains_pattern(f.provider_name@));
        params.push(text_param(&pattern));
    }
    assert(sql@ =~= s1 + s2 + s3 + s4 + s5);
    assert(params_view(params@) =~= a1 + a2 + a3 + a4 + a5);
    (sql, params)
}

fn state_piece(f: &MediaLibraryFilter, include_specials: bool) -> (r: Vec<char>)
    ensures
        r@ == state_sql(*f, include_specials),
{
    let mut sql: Vec<char> = Vec::new();
    match f.is_watch_next {
        Some(true) => extend_str(&mut sql, QUEUED_CLAUSE),
        Some(false) => extend_str(&mut sql, UNQUEUED_CLAUSE),
        None => {},
    }
    let ghost s1 = sql@;
    match f.has_unwatched {
        Some(b) => {
            if b {
                extend_str(&mut sql, " AND ");
            } else {
                extend_str(&mut sql, " AND NOT ");
            }
            extend_str(&mut sql, UNWATCHED_HEAD);
            extend_str(
                &mut sql,
                if include_specials {
                    INCLUDED_WITH_SPECIALS
                } else {
                    INCLUDED_REGULAR
                },
            );
            extend_str(&mut sql, UNWATCHED_TAIL);
        },
        None => {},
    }
    assert(sql@ =~= state_sql(*f, include_specials));
    sql
}

/// The query and parameters of a library list page: see `library_sql` and
/// `library_args`.
pub fn library_query(filter: &MediaLibraryFilter, include_specials: bool) -> (r: (
    String,
    Vec<SqlParam>,
))
    ensures
        r.0@ == library_sql(*filter, include_specials),
        params_view(r.1@) == library_args(*filter),
{
    let mut sql = summary_select_chars(include_specials);
    extend_str(&mut sql, " WHERE 1 = 1");
    let (q_sql, q_params) = query_piece(filter);
    crate::text::extend_chars(&mut sql, &q_sql);
    let (a_sql, a_params) = attribute_piece(filter);
    crate::text::extend_chars(&mut sql, &a_sql);
    let s_sql = state_piece(filter, include_specials);
    crate::text::extend_chars(&mut sql, &s_sql);
    extend_str(&mut sql, " ORDER BY ");
    let order = order_terms_chars(filter.sort.as_str(), filter.sort_direction.as_str());
    crate::text::extend_chars(&mut sql, &order);
    extend_str(&mut sql, " LIMIT ? OFFSET ?");
    assert(sql@ =~= library_sql(*filter, include_specials));
    let mut params: Vec<SqlParam> = Vec::new();
    append_params(&mut params, q_params);
    append_params(&mut params, a_params);
    let ghost before_page = params@;
    params.push(SqlParam::Integer(page_size_of(filter.limit)));
    params.push(SqlParam::Integer(page_start_of(filter.offset)));
    assert(params_view(params@) =~= params_view(before_page) + seq![
        int_arg(page_size(filter.limit)),
        int_arg(page_start(filter.offset)),
    ]);
    assert(params_view(params@) =~= library_args(*filter));
    (string_of(&sql), params)
}

} // verus!
