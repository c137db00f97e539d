//! What TMDB's records become in the media library: search results,
//! normalized titles, seasons and episodes, and the streaming availability
//! of a region; and what its failures are reported as.
use crate::media::{
    MediaCatalogSearchResult, MediaContentType, MediaError, MediaErrorKind, NormalizedMediaEpisode,
    NormalizedMediaImport, NormalizedMediaSeason, NormalizedMediaTitle,
    NormalizedProviderAvailability, NormalizedProviderSnapshot,
};
use crate::text::{
    chars_eq_str, chars_of, extend_str, keep_some, lower_ascii, lower_ascii_chars, owned,
    string_of, trim, trim_chars, upper_ascii, upper_ascii_chars, utf8_len, utf8_len_capped,
};
use vstd::prelude::*;

verus! {

pub const TMDB_API_ROOT: &'static str = "https://api.themoviedb.org/3";

// ------------------------------------------------------------ records read

pub struct TmdbSearchItem {
    pub id: i64,
    pub media_type: Option<String>,
    pub title: Option<String>,
    pub original_title: Option<String>,
    pub name: Option<String>,
    pub original_name: Option<String>,
    pub overview: Option<String>,
    pub original_language: Option<String>,
    pub release_date: Option<String>,
    pub first_air_date: Option<String>,
    pub poster_path: Option<String>,
    pub backdrop_path: Option<String>,
}

pub struct TmdbMovieDetail {
    pub id: i64,
    pub title: String,
    pub original_title: String,
    pub overview: Option<String>,
    pub original_language: Option<String>,
    pub release_date: Option<String>,
    pub runtime: Option<i64>,
    pub status: Option<String>,
    pub poster_path: Option<String>,
    pub backdrop_path: Option<String>,
    pub homepage: Option<String>,
}

/// A series' details, without its season list.
pub struct TmdbSeriesDetail {
    pub id: i64,
    pub name: String,
    pub original_name: String,
    pub overview: Option<String>,
    pub original_language: Option<String>,
    pub first_air_date: Option<String>,
    pub last_air_date: Option<String>,
    pub episode_run_time: Vec<i64>,
    pub status: Option<String>,
    pub series_type: Option<String>,
    pub poster_path: Option<String>,
    pub backdrop_path: Option<String>,
    pub homepage: Option<String>,
    pub number_of_seasons: Option<i64>,
    pub number_of_episodes: Option<i64>,
}

/// A season as the series lists it.
pub struct TmdbSeasonSummary {
    pub id: i64,
    pub season_number: i64,
    pub name: String,
    pub overview: String,
    pub air_date: Option<String>,
    pub poster_path: Option<String>,
}

/// A season's own details, without its episodes.
pub struct TmdbSeasonDetail {
    pub id: i64,
    pub season_number: i64,
    pub name: Option<String>,
    pub overview: Option<String>,
    pub air_date: Option<String>,
    pub poster_path: Option<String>,
}

pub struct TmdbEpisodeDetail {
    pub id: i64,
    pub season_number: i64,
    pub episode_number: i64,
    pub name: Option<String>,
    pub overview: Option<String>,
    pub air_date: Option<String>,
    pub runtime: Option<i64>,
    pub still_path: Option<String>,
}

pub struct TmdbWatchProvider {
    pub provider_id: i64,
    pub provider_name: String,
    pub logo_path: Option<String>,
    pub display_priority: Option<i64>,
}

/// What can be watched in one region, by monetization.
pub struct TmdbRegionAvailability {
    pub link: Option<String>,
    pub flatrate: Vec<TmdbWatchProvider>,
    pub free: Vec<TmdbWatchProvider>,
    pub ads: Vec<TmdbWatchProvider>,
    pub rent: Vec<TmdbWatchProvider>,
    pub buy: Vec<TmdbWatchProvider>,
}

// ------------------------------------------------------------ small pieces

pub open spec fn or_empty(v: Option<String>) -> Seq<char> {
    match v {
        Some(s) => s@,
        None => seq![],
    }
}

fn take_text(v: Option<String>) -> (r: String)
    ensures
        r@ == or_empty(v),
{
    match v {
        Some(s) => s,
        None => String::new(),
    }
}

/// The localized title when it is not blank, else the original one, each
/// trimmed.
pub open spec fn preferred_title(localized: Seq<char>, original: Seq<char>) -> Seq<char> {
    if trim(localized).len() == 0 {
        trim(original)
    } else {
        trim(localized)
    }
}

pub fn preferred_title_of(localized: &str, original: &str) -> (r: String)
    ensures
        r@ == preferred_title(localized@, original@),
{
    let l = trim_chars(&chars_of(localized));
    if l.len() == 0 {
        string_of(&trim_chars(&chars_of(original)))
    } else {
        string_of(&l)
    }
}

/// TMDB's two media types, `movie` and `tv`, in any ASCII case and
/// trimmed.
pub open spec fn external_media_type(value: Seq<char>) -> Option<Seq<char>> {
    let k = lower_ascii(trim(value));
    if k == "movie"@ {
        Some("movie"@)
    } else if k == "tv"@ {
        Some("tv"@)
    } else {
        None
    }
}

pub fn normalize_external_media_type(value: &str) -> (r: Result<&'static str, MediaError>)
    ensures
        match external_media_type(value@) {
            Some(t) => r matches Ok(s) && s@ == t,
            None => r matches Err(e) && e.kind == MediaErrorKind::Validation && e.message@
                == "TMDB media type must be movie or tv."@,
        },
{
    let k = lower_ascii_chars(&trim_chars(&chars_of(value)));
    if chars_eq_str(&k, "movie") {
        Ok("movie")
    } else if chars_eq_str(&k, "tv") {
        Ok("tv")
    } else {
        Err(MediaError::validation("TMDB media type must be movie or tv."))
    }
}

/// What an import request asks TMDB for: a positive identifier and one of
/// its media types.
pub fn import_request_type(external_id: i64, external_media_type_text: &str) -> (r: Result<
    &'static str,
    MediaError,
>)
    ensures
        external_id <= 0 ==> (r matches Err(e) && e.kind == MediaErrorKind::Validation
            && e.message@ == "TMDB title identifiers must be positive."@),
        external_id > 0 ==> match external_media_type(external_media_type_text@) {
            Some(t) => r matches Ok(s) && s@ == t,
            None => r matches Err(e) && e.kind == MediaErrorKind::Validation,
        },
{
    if external_id <= 0 {
        return Err(MediaError::validation("TMDB title identifiers must be positive."));
    }
    normalize_external_media_type(external_media_type_text)
}

/// A search needs at least two bytes of trimmed text; the trimmed text is
/// what is searched for.
pub fn search_query(query: &str) -> (r: Result<String, MediaError>)
    ensures
        utf8_len(trim(query@)) < 2 ==> (r matches Err(e) && e.kind == MediaErrorKind::Validation
            && e.message@ == "Enter at least two characters to search TMDB."@),
        utf8_len(trim(query@)) >= 2 ==> (r matches Ok(q) && q@ == trim(query@)),
{
    let q = trim_chars(&chars_of(query));
    if utf8_len_capped(&q, 2) < 2 {
        return Err(MediaError::validation("Enter at least two characters to search TMDB."));
    }
    Ok(string_of(&q))
}

// ------------------------------------------------------------ search results

pub open spec fn search_view(r: MediaCatalogSearchResult) -> (i64, Seq<char>, MediaContentType, Seq<char>, Seq<char>, Seq<char>, Seq<char>, Seq<char>, Seq<char>, Seq<char>, bool, Option<i64>) {
    (
        r.external_id,
        r.external_media_type@,
        r.content_type,
        r.title@,
        r.original_title@,
        r.overview@,
        r.original_language@,
        r.release_date@,
        r.poster_path@,
        r.backdrop_path@,
        r.already_in_library,
        r.existing_entry_id,
    )
}

/// The first of two optional texts that is present, or the empty text.
pub open spec fn first_present(a: Option<String>, b: Option<String>) -> Seq<char> {
    match a {
        Some(s) => s@,
        None => or_empty(b),
    }
}

/// What a search hit becomes: movies and series only, titled by the
/// localized title (or name), with the release date or first air date.
pub open spec fn search_hit(item: TmdbSearchItem) -> Option<(i64, Seq<char>, MediaContentType, Seq<char>, Seq<char>, Seq<char>, Seq<char>, Seq<char>, Seq<char>, Seq<char>, bool, Option<i64>)> {
    match item.media_type {
        None => None,
        Some(t) => {
            if t@ == "movie"@ || t@ == "tv"@ {
                let original = first_present(item.original_title, item.original_name);
                Some(
                    (
                        item.id,
                        t@,
                        if t@ == "movie"@ {
                            MediaContentType::Movie
                        } else {
                            MediaContentType::Series
                        },
                        preferred_title(first_present(item.title, item.name), original),
                        original,
                        or_empty(item.overview),
                        or_empty(item.original_language),
                        first_present(item.release_date, item.first_air_date),
                        or_empty(item.poster_path),
                        or_empty(item.backdrop_path),
                        false,
                        None,
                    ),
                )
            } else {
                None
            }
        },
    }
}

fn first_present_of(a: Option<String>, b: Option<String>) -> (r: String)
    ensures
        r@ == first_present(a, b),
{
    match a {
        Some(s) => s,
        None => take_text(b),
    }
}

pub fn search_result(item: TmdbSearchItem) -> (r: Option<MediaCatalogSearchResult>)
    ensures
        match r {
            Some(x) => search_hit(item) == Some(search_view(x)),
            None => search_hit(item) is None,
        },
{
    let media_type = match item.media_type {
        Some(t) => t,
        None => {
            return None;
        },
    };
    let k = chars_of(media_type.as_str());
    let content_type = if chars_eq_str(&k, "movie") {
        MediaContentType::Movie
    } else if chars_eq_str(&k, "tv") {
        MediaContentType::Series
    } else {
        return None;
    };
    let original = first_present_of(item.original_title, item.original_name);
    let shown = first_present_of(item.title, item.name);
    Some(
        MediaCatalogSearchResult {
            external_id: item.id,
            external_media_type: media_type,
            content_type,
            title: preferred_title_of(shown.as_str(), original.as_str()),
            original_title: original,
            overview: take_text(item.overview),
            original_language: take_text(item.original_language),
            release_date: first_present_of(item.release_date, item.first_air_date),
            poster_path: take_text(item.poster_path),
            backdrop_path: take_text(item.backdrop_path),
            already_in_library: false,
            existing_entry_id: None,
        },
    )
}

/// The hits of a search, in order, without the people and other kinds.
pub fn search_results(items: Vec<TmdbSearchItem>) -> (r: Vec<MediaCatalogSearchResult>)
    ensures
        r@.map_values(|x: MediaCatalogSearchResult| search_view(x)) == keep_some(
            items@.map_values(|i: TmdbSearchItem| search_hit(i)),
        ),
{
    let ghost all = items@;
    let ghost hits = all.map_values(|i: TmdbSearchItem| search_hit(i));
    let mut out: Vec<MediaCatalogSearchResult> = Vec::new();
    let mut items = items;
    let n = items.len();
    let mut i: usize = 0;
    while items.len() > 0
        invariant
            n == all.len(),
            hits == all.map_values(|i: TmdbSearchItem| search_hit(i)),
            i + items@.len() == n,
            items@ == all.skip(i as int),
            out@.map_values(|x: MediaCatalogSearchResult| search_view(x)) == keep_some(
                hits.take(i as int),
            ),
        decreases items.len(),
    {
        let item = items.remove(0);
        assert(item == all[i as int]);
        assert(hits.take(i + 1).drop_last() =~= hits.take(i as int));
        let ghost prev = out@;
        match search_result(item) {
            Some(x) => {
                out.push(x);
                assert(out@.map_values(|x: MediaCatalogSearchResult| search_view(x)) =~= prev.map_values(
                    |x: MediaCatalogSearchResult| search_view(x),
                ).push(search_view(x)));
            },
            None => {},
        }
        i = i + 1;
        assert(items@ =~= all.skip(i as int));
    }
    assert(hits.take(n as int) =~= hits);
    out
}

// ------------------------------------------------------------ titles

/// The first positive episode runtime, if any.
pub open spec fn first_positive(v: Seq<i64>) -> Option<i64>
    decreases v.len(),
{
    if v.len() == 0 {
        None
    } else if v[0] > 0 {
        Some(v[0])
    } else {
        first_positive(v.drop_first())
    }
}

fn first_positive_of(v: &Vec<i64>) -> (r: Option<i64>)
    ensures
        r == first_positive(v@),
{
    let mut i: usize = 0;
    assert(v@.skip(0) =~= v@);
    while i < v.len()
        invariant
            i <= v.len(),
            first_positive(v@) == first_positive(v@.skip(i as int)),
        decreases v.len() - i,
    {
        assert(v@.skip(i as int)[0] == v[i as int]);
        if v[i] > 0 {
            return Some(v[i]);
        }
        assert(v@.skip(i as int).drop_first() =~= v@.skip(i + 1));
        i = i + 1;
    }
    assert(v@.skip(i as int) =~= Seq::<i64>::empty());
    None
}

/// A normalized title as (source, id, type, content type, title, original
/// title, overview, language, release, first air, last air, runtime,
/// episode runtime, status, series type, poster, backdrop, homepage,
/// seasons, episodes, metadata).
pub open spec fn title_facts(t: NormalizedMediaTitle) -> (Seq<char>, Option<i64>, Option<Seq<char>>, MediaContentType, Seq<char>, Seq<char>, Seq<char>, Seq<char>, Seq<char>, Seq<char>, Seq<char>, Option<i64>, Option<i64>, Seq<char>, Seq<char>, Seq<char>, Seq<char>, Seq<char>, Option<i64>, Option<i64>, Seq<char>) {
    (
        t.source_key@,
        t.external_id,
        match t.external_media_type {
            Some(s) => Some(s@),
            None => None,
        },
        t.content_type,
        t.title@,
        t.original_title@,
        t.overview@,
        t.original_language@,
        t.release_date@,
        t.first_air_date@,
        t.last_air_date@,
        t.runtime_minutes,
        t.episode_runtime_minutes,
        t.external_status@,
        t.series_type@,
        t.poster_path@,
        t.backdrop_path@,
        t.homepage_url@,
        t.total_seasons,
        t.total_episodes,
        t.metadata_json@,
    )
}

/// A movie as a normalized title.
pub open spec fn movie_facts(d: TmdbMovieDetail, metadata_json: Seq<char>) -> (Seq<char>, Option<i64>, Option<Seq<char>>, MediaContentType, Seq<char>, Seq<char>, Seq<char>, Seq<char>, Seq<char>, Seq<char>, Seq<char>, Option<i64>, Option<i64>, Seq<char>, Seq<char>, Seq<char>, Seq<char>, Seq<char>, Option<i64>, Option<i64>, Seq<char>) {
    (
        "tmdb"@,
        Some(d.id),
        Some("movie"@),
        MediaContentType::Movie,
        preferred_title(d.title@, d.original_title@),
        trim(d.original_title@),
        or_empty(d.overview),
        or_empty(d.original_language),
        or_empty(d.release_date),
        seq![],
        seq![],
        d.runtime,
        None,
        or_empty(d.status),
        seq![],
        or_empty(d.poster_path),
        or_empty(d.backdrop_path),
        or_empty(d.homepage),
        None,
        None,
        metadata_json,
    )
}

pub fn movie_title(detail: TmdbMovieDetail, metadata_json: String) -> (r: NormalizedMediaTitle)
    ensures
        title_facts(r) == movie_facts(detail, metadata_json@),
{
    NormalizedMediaTitle {
        source_key: owned("tmdb"),
        external_id: Some(detail.id),
        external_media_type: Some(owned("movie")),
        content_type: MediaContentType::Movie,
        title: preferred_title_of(detail.title.as_str(), detail.original_title.as_str()),
        original_title: string_of(&trim_chars(&chars_of(detail.original_title.as_str()))),
        overview: take_text(detail.overview),
        original_language: take_text(detail.original_language),
        release_date: take_text(detail.release_date),
        first_air_date: String::new(),
        last_air_date: String::new(),
        runtime_minutes: detail.runtime,
        episode_runtime_minutes: None,
        external_status: take_text(detail.status),
        series_type: String::new(),
        poster_path: take_text(detail.poster_path),
        backdrop_path: take_text(detail.backdrop_path),
        homepage_url: take_text(detail.homepage),
        total_seasons: None,
        total_episodes: None,
        metadata_json,
    }
}

/// A series as a normalized title: its episode runtime is the first
/// positive one listed.
pub open spec fn series_facts(d: TmdbSeriesDetail, metadata_json: Seq<char>) -> (Seq<char>, Option<i64>, Option<Seq<char>>, MediaContentType, Seq<char>, Seq<char>, Seq<char>, Seq<char>, Seq<char>, Seq<char>, Seq<char>, Option<i64>, Option<i64>, Seq<char>, Seq<char>, Seq<char>, Seq<char>, Seq<char>, Option<i64>, Option<i64>, Seq<char>) {
    (
        "tmdb"@,
        Some(d.id),
        Some("tv"@),
        MediaContentType::Series,
        preferred_title(d.name@, d.original_name@),
        trim(d.original_name@),
        or_empty(d.overview),
        or_empty(d.original_language),
        seq![],
        or_empty(d.first_air_date),
        or_empty(d.last_air_date),
        None,
        first_positive(d.episode_run_time@),
        or_empty(d.status),
        or_empty(d.series_type),
        or_empty(d.poster_path),
        or_empty(d.backdrop_path),
        or_empty(d.homepage),
        d.number_of_seasons,
        d.number_of_episodes,
        metadata_json,
    )
}

pub fn series_title(detail: TmdbSeriesDetail, metadata_json: String) -> (r: NormalizedMediaTitle)
    ensures
        title_facts(r) == series_facts(detail, metadata_json@),
{
    let episode_runtime_minutes = first_positive_of(&detail.episode_run_time);
    NormalizedMediaTitle {
        source_key: owned("tmdb"),
        external_id: Some(detail.id),
        external_media_type: Some(owned("tv")),
        content_type: MediaContentType::Series,
        title: preferred_title_of(detail.name.as_str(), detail.original_name.as_str()),
        original_title: string_of(&trim_chars(&chars_of(detail.original_name.as_str()))),
        overview: take_text(detail.overview),
        original_language: take_text(detail.original_language),
        release_date: String::new(),
        first_air_date: take_text(detail.first_air_date),
        last_air_date: take_text(detail.last_air_date),
        runtime_minutes: None,
        episode_runtime_minutes,
        external_status: take_text(detail.status),
        series_type: take_text(detail.series_type),
        poster_path: take_text(detail.poster_path),
        backdrop_path: take_text(detail.backdrop_path),
        homepage_url: take_text(detail.homepage),
        total_seasons: detail.number_of_seasons,
        total_episodes: detail.number_of_episodes,
        metadata_json,
    }
}

// ------------------------------------------------------------ seasons

pub open spec fn episode_facts(e: NormalizedMediaEpisode) -> (Option<i64>, i64, i64, Seq<char>, Seq<char>, Seq<char>, Option<i64>, Seq<char>, Seq<char>) {
    (
        e.external_id,
        e.season_number,
        e.episode_number,
        e.name@,
        e.overview@,
        e.air_date@,
        e.runtime_minutes,
        e.still_path@,
        e.metadata_json@,
    )
}

pub fn episode_import(detail: TmdbEpisodeDetail, metadata_json: String) -> (r: NormalizedMediaEpisode)
    ensures
        episode_facts(r) == (
            Some(detail.id),
            detail.season_number,
            detail.episode_number,
            or_empty(detail.name),
            or_empty(detail.overview),
            or_empty(detail.air_date),
            detail.runtime,
            or_empty(detail.still_path),
            metadata_json@,
        ),
{
    NormalizedMediaEpisode {
        external_id: Some(detail.id),
        season_number: detail.season_number,
        episode_number: detail.episode_number,
        name: take_text(detail.name),
        overview: take_text(detail.overview),
        air_date: take_text(detail.air_date),
        runtime_minutes: detail.runtime,
        still_path: take_text(detail.still_path),
        metadata_json,
    }
}

/// A season from its own details, falling back to what the series listed
/// for the name, overview, air date and poster; it counts its episodes.
pub fn season_import(
    summary: TmdbSeasonSummary,
    detail: TmdbSeasonDetail,
    metadata_json: String,
    episodes: Vec<NormalizedMediaEpisode>,
) -> (r: NormalizedMediaSeason)
    requires
        episodes.len() <= i64::MAX,
    ensures
        r.external_id == Some(detail.id),
        r.season_number == detail.season_number,
        r.name@ == match detail.name {
            Some(n) => n@,
            None => summary.name@,
        },
        r.overview@ == match detail.overview {
            Some(o) => o@,
            None => summary.overview@,
        },
        r.air_date@ == first_present(detail.air_date, summary.air_date),
        r.poster_path@ == first_present(detail.poster_path, summary.poster_path),
        r.episode_count == episodes.len(),
        r.metadata_json@ == metadata_json@,
        r.episodes@ == episodes@,
{
    let episode_count = episodes.len() as i64;
    NormalizedMediaSeason {
        external_id: Some(detail.id),
        season_number: detail.season_number,
        name: match detail.name {
            Some(n) => n,
            None => summary.name,
        },
        overview: match detail.overview {
            Some(o) => o,
            None => summary.overview,
        },
        air_date: first_present_of(detail.air_date, summary.air_date),
        poster_path: first_present_of(detail.poster_path, summary.poster_path),
        episode_count,
        metadata_json,
        episodes,
    }
}

/// Where a season with number `k` goes among seasons already in order:
/// after every season numbered `k` or lower.
pub open spec fn insert_position(s: Seq<NormalizedMediaSeason>, k: i64) -> int
    decreases s.len(),
{
    if s.len() == 0 {
        0
    } else if s.last().season_number <= k {
        s.len() as int
    } else {
        insert_position(s.drop_last(), k)
    }
}

/// The seasons in season-number order, seasons of equal number kept in the
/// order they came: a stable sort by season number.
pub open spec fn by_season_number(s: Seq<NormalizedMediaSeason>) -> Seq<NormalizedMediaSeason>
    decreases s.len(),
{
    if s.len() == 0 {
        seq![]
    } else {
        let sorted = by_season_number(s.drop_last());
        sorted.insert(insert_position(sorted, s.last().season_number), s.last())
    }
}

proof fn lemma_insert_position_bounds(s: Seq<NormalizedMediaSeason>, k: i64)
    ensures
        0 <= insert_position(s, k) <= s.len(),
    decreases s.len(),
{
    if s.len() > 0 {
        lemma_insert_position_bounds(s.drop_last(), k);
    }
}

proof fn lemma_by_season_number_len(s: Seq<NormalizedMediaSeason>)
    ensures
        by_season_number(s).len() == s.len(),
    decreases s.len(),
{
    if s.len() > 0 {
        lemma_by_season_number_len(s.drop_last());
        lemma_insert_position_bounds(by_season_number(s.drop_last()), s.last().season_number);
    }
}

pub open spec fn seasons_in_order(s: Seq<NormalizedMediaSeason>) -> bool {
    forall|i: int, j: int| 0 <= i < j < s.len() ==> s[i].season_number <= s[j].season_number
}

proof fn lemma_insert_position_split(s: Seq<NormalizedMediaSeason>, k: i64)
    requires
        seasons_in_order(s),
    ensures
        forall|i: int| 0 <= i < insert_position(s, k) ==> s[i].season_number <= k,
        forall|i: int| insert_position(s, k) <= i < s.len() ==> s[i].season_number > k,
    decreases s.len(),
{
    lemma_insert_position_bounds(s, k);
    if s.len() > 0 {
        let t = s.drop_last();
        assert(seasons_in_order(t));
        lemma_insert_position_split(t, k);
        if s.last().season_number <= k {
            assert forall|i: int| 0 <= i < s.len() implies s[i].season_number <= k by {
                if i < s.len() - 1 {
                    assert(s[i].season_number <= s[s.len() - 1].season_number);
                }
            }
        } else {
            assert forall|i: int| 0 <= i < insert_position(s, k) implies s[i].season_number <= k by {
                assert(t[i] == s[i]);
            }
            assert forall|i: int| insert_position(s, k) <= i < s.len() implies s[i].season_number > k by {
                if i < s.len() - 1 {
                    assert(t[i] == s[i]);
                }
            }
        }
    }
}

/// Sorting by season number leaves the seasons in season-number order.
pub proof fn sorted_seasons_are_in_order(s: Seq<NormalizedMediaSeason>)
    ensures
        seasons_in_order(by_season_number(s)),
        by_season_number(s).len() == s.len(),
    decreases s.len(),
{
    lemma_by_season_number_len(s);
    if s.len() > 0 {
        let t = by_season_number(s.drop_last());
        let x = s.last();
        sorted_seasons_are_in_order(s.drop_last());
        lemma_insert_position_split(t, x.season_number);
        let p = insert_position(t, x.season_number);
        lemma_insert_position_bounds(t, x.season_number);
        let r = t.insert(p, x);
        assert forall|i: int, j: int| 0 <= i < j < r.len() implies r[i].season_number
            <= r[j].season_number by {
            if j < p {
            } else if j == p {
                assert(r[i] == t[i]);
            } else if i < p {
                assert(r[j] == t[j - 1]);
                assert(r[i] == t[i]);
                assert(t[i].season_number <= t[j - 1].season_number);
            } else if i == p {
                assert(r[j] == t[j - 1]);
            } else {
                assert(r[j] == t[j - 1]);
                assert(r[i] == t[i - 1]);
            }
        }
    }
}

pub fn sort_seasons(seasons: Vec<NormalizedMediaSeason>) -> (r: Vec<NormalizedMediaSeason>)
    ensures
        r@ == by_season_number(seasons@),
        seasons_in_order(r@),
{
    proof {
        sorted_seasons_are_in_order(seasons@);
    }
    let ghost all = seasons@;
    let mut sorted: Vec<NormalizedMediaSeason> = Vec::new();
    let mut rest = seasons;
    let n = rest.len();
    let mut i: usize = 0;
    while rest.len() > 0
        invariant
            n == all.len(),
            i + rest@.len() == n,
            rest@ == all.skip(i as int),
            sorted@ == by_season_number(all.take(i as int)),
            sorted@.len() == i,
        decreases rest.len(),
    {
        let x = rest.remove(0);
        assert(x == all[i as int]);
        let k = x.season_number;
        let mut j = sorted.len();
        assert(sorted@.take(j as int) =~= sorted@);
        while j > 0 && sorted[j - 1].season_number > k
            invariant
                j <= sorted.len(),
                insert_position(sorted@, k) == insert_position(sorted@.take(j as int), k),
            decreases j,
        {
            assert(sorted@.take(j as int).drop_last() =~= sorted@.take(j - 1));
            j = j - 1;
        }
        proof {
            assert(all.take(i + 1).drop_last() =~= all.take(i as int));
            if j > 0 {
                assert(sorted@.take(j as int).last() == sorted@[j - 1]);
            }
        }
        sorted.insert(j, x);
        i = i + 1;
        assert(rest@ =~= all.skip(i as int));
    }
    assert(all.take(n as int) =~= all);
    sorted
}

// ------------------------------------------------------------ availability

/// The region an availability lookup uses: trimmed and upper-cased.
pub fn provider_region(region: &str) -> (r: String)
    ensures
        r@ == upper_ascii(trim(region@)),
{
    string_of(&upper_ascii_chars(&trim_chars(&chars_of(region))))
}

pub open spec fn availability_facts(a: NormalizedProviderAvailability) -> (i64, Seq<char>, Seq<char>, Seq<char>, i64) {
    (a.provider_external_id, a.provider_name@, a.provider_logo_path@, a.monetization_type@, a.display_priority)
}

pub open spec fn provider_rows(providers: Seq<TmdbWatchProvider>, monetization: Seq<char>) -> Seq<
    (i64, Seq<char>, Seq<char>, Seq<char>, i64),
> {
    providers.map_values(
        |p: TmdbWatchProvider|
            (
                p.provider_id,
                p.provider_name@,
                or_empty(p.logo_path),
                monetization,
                match p.display_priority {
                    Some(d) => d,
                    None => 0,
                },
            ),
    )
}

fn append_provider_rows(
    rows: &mut Vec<NormalizedProviderAvailability>,
    monetization: &str,
    providers: Vec<TmdbWatchProvider>,
)
    ensures
        final(rows)@.map_values(|a: NormalizedProviderAvailability| availability_facts(a)) == old(
            rows,
        )@.map_values(|a: NormalizedProviderAvailability| availability_facts(a)) + provider_rows(
            providers@,
            monetization@,
        ),
{
    let ghost start = rows@.map_values(|a: NormalizedProviderAvailability| availability_facts(a));
    let ghost all = providers@;
    let mut providers = providers;
    let n = providers.len();
    let mut i: usize = 0;
    while providers.len() > 0
        invariant
            n == all.len(),
            i + providers@.len() == n,
            providers@ == all.skip(i as int),
            rows@.map_values(|a: NormalizedProviderAvailability| availability_facts(a)) == start
                + provider_rows(all.take(i as int), monetization@),
        decreases providers.len(),
    {
        let p = providers.remove(0);
        assert(p == all[i as int]);
        let ghost prev = rows@;
        rows.push(
            NormalizedProviderAvailability {
                provider_external_id: p.provider_id,
                provider_name: p.provider_name,
                provider_logo_path: take_text(p.logo_path),
                monetization_type: owned(monetization),
                display_priority: match p.display_priority {
                    Some(d) => d,
                    None => 0,
                },
            },
        );
        assert(all.take(i + 1) =~= all.take(i as int).push(all[i as int]));
        assert(provider_rows(all.take(i + 1), monetization@) =~= provider_rows(
            all.take(i as int),
            monetization@,
        ).push(provider_rows(all.take(i + 1), monetization@).last()));
        assert(rows@.map_values(|a: NormalizedProviderAvailability| availability_facts(a))
            =~= prev.map_values(|a: NormalizedProviderAvailability| availability_facts(a)).push(
            availability_facts(rows@.last()),
        ));
        i = i + 1;
        assert(providers@ =~= all.skip(i as int));
    }
    assert(all.take(n as int) =~= all);
}

/// The streaming availability of a title in a region: the providers that
/// stream it with a subscription, free, with ads, to rent and to buy, in
/// that order, with TMDB's page for the region.
pub fn provider_snapshot(region_code: String, availability: Option<TmdbRegionAvailability>) -> (r:
    NormalizedProviderSnapshot)
    ensures
        r.region_code@ == region_code@,
        match availability {
            Some(a) => r.source_link_url@ == or_empty(a.link) && r.providers@.map_values(
                |x: NormalizedProviderAvailability| availability_facts(x),
            ) == provider_rows(a.flatrate@, "FLATRATE"@) + provider_rows(a.free@, "FREE"@)
                + provider_rows(a.ads@, "ADS"@) + provider_rows(a.rent@, "RENT"@) + provider_rows(
                a.buy@,
                "BUY"@,
            ),
            None => r.source_link_url@.len() == 0 && r.providers@.len() == 0,
        },
{
    let mut providers: Vec<NormalizedProviderAvailability> = Vec::new();
    match availability {
        Some(a) => {
            append_provider_rows(&mut providers, "FLATRATE", a.flatrate);
            append_provider_rows(&mut providers, "FREE", a.free);
            append_provider_rows(&mut providers, "ADS", a.ads);
            append_provider_rows(&mut providers, "RENT", a.rent);
            append_provider_rows(&mut providers, "BUY", a.buy);
            NormalizedProviderSnapshot {
                region_code,
                source_link_url: take_text(a.link),
                providers,
            }
        },
        None => NormalizedProviderSnapshot {
            region_code,
            source_link_url: String::new(),
            providers,
        },
    }
}

/// An import: the title and seasons, with the availability lookup's
/// snapshot, or its failure as text when it failed.
pub fn media_import(
    title: NormalizedMediaTitle,
    seasons: Vec<NormalizedMediaSeason>,
    availability: Result<NormalizedProviderSnapshot, MediaError>,
) -> (r: NormalizedMediaImport)
    ensures
        r.title == title,
        r.seasons@ == seasons@,
        match availability {
            Ok(s) => r.provider_snapshot == Some(s) && r.provider_error is None,
            Err(e) => r.provider_snapshot is None && (r.provider_error matches Some(m) && m@
                == e.kind.label() + ": "@ + e.message@),
        },
{
    match availability {
        Ok(snapshot) => NormalizedMediaImport {
            title,
            seasons,
            provider_snapshot: Some(snapshot),
            provider_error: None,
        },
        Err(error) => NormalizedMediaImport {
            title,
            seasons,
            provider_snapshot: None,
            provider_error: Some(error.to_display_string()),
        },
    }
}

// ------------------------------------------------------------ failures

/// The error a failed TMDB response is reported as: by status, with the
/// status text (code and reason, as HTTP writes it) for codes with no
/// message of their own.
pub fn tmdb_status_error(code: u16, status_text: &str) -> (r: MediaError)
    ensures
        (code == 401 || code == 403) ==> r.kind == MediaErrorKind::Unauthorized && r.message@
            == "TMDB rejected the configured API read access token."@,
        code == 404 ==> r.kind == MediaErrorKind::NotFound && r.message@
            == "TMDB could not find that title."@,
        code == 429 ==> r.kind == MediaErrorKind::RateLimited && r.message@
            == "TMDB rate-limited the request. Try again later."@,
        (500 <= code <= 599) ==> r.kind == MediaErrorKind::ProviderUnavailable && r.message@
            == "TMDB is temporarily unavailable. Cached local data was kept."@,
        !(code == 401 || code == 403 || code == 404 || code == 429 || (500 <= code <= 599)) ==> r.kind
            == MediaErrorKind::Unknown && r.message@ == "TMDB returned HTTP status "@ + status_text@
            + "."@,
{
    if code == 401 || code == 403 {
        MediaError::new(
            MediaErrorKind::Unauthorized,
            owned("TMDB rejected the configured API read access token."),
        )
    } else if code == 404 {
        MediaError::new(MediaErrorKind::NotFound, owned("TMDB could not find that title."))
    } else if code == 429 {
        MediaError::new(
            MediaErrorKind::RateLimited,
            owned("TMDB rate-limited the request. Try again later."),
        )
    } else if 500 <= code && code <= 599 {
        MediaError::new(
            MediaErrorKind::ProviderUnavailable,
            owned("TMDB is temporarily unavailable. Cached local data was kept."),
        )
    } else {
        let mut m = chars_of("TMDB returned HTTP status ");
        extend_str(&mut m, status_text);
        extend_str(&mut m, ".");
        MediaError::new(MediaErrorKind::Unknown, string_of(&m))
    }
}

} // verus!
