//! Media library domain: statuses, errors, progress transitions and the
//! validation of user-entered values.
use crate::text::{
    chars_eq_str, chars_of, extend_str, has_ws, has_ws_exec, is_ws, lemma_trim_idempotent,
    lower_ascii, lower_ascii_chars, owned, starts_with, starts_with_str, string_of, trim,
    trim_chars, trim_end, trim_start, upper_ascii, upper_ascii_chars,
};
use vstd::prelude::*;

verus! {

pub const DEFAULT_MEDIA_REGION: &'static str = "CA";

#[derive(Clone, Copy, Debug, PartialEq, Eq, Structural)]
pub enum MediaContentType {
    Movie,
    Series,
}

impl MediaContentType {
    pub open spec fn label(self) -> Seq<char> {
        match self {
            MediaContentType::Movie => "MOVIE"@,
            MediaContentType::Series => "SERIES"@,
        }
    }

    /// The value a label parses to, after trimming and ASCII upper-casing.
    pub open spec fn from_label(s: Seq<char>) -> Option<MediaContentType> {
        let k = upper_ascii(trim(s));
        if k == "MOVIE"@ {
            Some(MediaContentType::Movie)
        } else if k == "SERIES"@ {
            Some(MediaContentType::Series)
        } else {
            None
        }
    }

    /// The display text (`MOVIE` or `SERIES`).
    pub fn as_str(self) -> (r: &'static str)
        ensures
            r@ == self.label(),
    {
        match self {
            MediaContentType::Movie => "MOVIE",
            MediaContentType::Series => "SERIES",
        }
    }

    pub fn from_str(value: &str) -> (r: Result<MediaContentType, MediaError>)
        ensures
            r is Ok <==> MediaContentType::from_label(value@) is Some,
            r matches Ok(t) ==> MediaContentType::from_label(value@) == Some(t),
            r matches Err(e) ==> e.kind == MediaErrorKind::Validation && e.message@
                == "Media type must be MOVIE or SERIES."@,
    {
        let k = normalized_key(value);
        if chars_eq_str(&k, "MOVIE") {
            Ok(MediaContentType::Movie)
        } else if chars_eq_str(&k, "SERIES") {
            Ok(MediaContentType::Series)
        } else {
            Err(MediaError::validation("Media type must be MOVIE or SERIES."))
        }
    }
}

#[derive(Clone, Copy, Debug, PartialEq, Eq, Structural)]
pub enum MediaLibraryStatus {
    Planned,
    Watching,
    Completed,
    OnHold,
    Dropped,
}

impl MediaLibraryStatus {
    pub open spec fn is_protected(self) -> bool {
        self == MediaLibraryStatus::OnHold || self == MediaLibraryStatus::Dropped
    }

    /// On-hold and dropped titles keep their status when progress changes.
    pub fn protects_from_automatic_transition(self) -> (r: bool)
        ensures
            r == self.is_protected(),
    {
        match self {
            MediaLibraryStatus::OnHold | MediaLibraryStatus::Dropped => true,
            _ => false,
        }
    }

    pub open spec fn label(self) -> Seq<char> {
        match self {
            MediaLibraryStatus::Planned => "PLANNED"@,
            MediaLibraryStatus::Watching => "WATCHING"@,
            MediaLibraryStatus::Completed => "COMPLETED"@,
            MediaLibraryStatus::OnHold => "ON_HOLD"@,
            MediaLibraryStatus::Dropped => "DROPPED"@,
        }
    }

    pub open spec fn from_label(s: Seq<char>) -> Option<MediaLibraryStatus> {
        let k = upper_ascii(trim(s));
        if k == "PLANNED"@ {
            Some(MediaLibraryStatus::Planned)
        } else if k == "WATCHING"@ {
            Some(MediaLibraryStatus::Watching)
        } else if k == "COMPLETED"@ {
            Some(MediaLibraryStatus::Completed)
        } else if k == "ON_HOLD"@ {
            Some(MediaLibraryStatus::OnHold)
        } else if k == "DROPPED"@ {
            Some(MediaLibraryStatus::Dropped)
        } else {
            None
        }
    }

    /// The display text, such as `ON_HOLD`.
    pub fn as_str(self) -> (r: &'static str)
        ensures
            r@ == self.label(),
    {
        match self {
            MediaLibraryStatus::Planned => "PLANNED",
            MediaLibraryStatus::Watching => "WATCHING",
            MediaLibraryStatus::Completed => "COMPLETED",
            MediaLibraryStatus::OnHold => "ON_HOLD",
            MediaLibraryStatus::Dropped => "DROPPED",
        }
    }

    pub fn from_str(value: &str) -> (r: Result<MediaLibraryStatus, MediaError>)
        ensures
            r is Ok <==> MediaLibraryStatus::from_label(value@) is Some,
            r matches Ok(t) ==> MediaLibraryStatus::from_label(value@) == Some(t),
            r matches Err(e) ==> e.kind == MediaErrorKind::Validation && e.message@
                == "Library status must be PLANNED, WATCHING, COMPLETED, ON_HOLD, or DROPPED."@,
    {
        let k = normalized_key(value);
        if chars_eq_str(&k, "PLANNED") {
            Ok(MediaLibraryStatus::Planned)
        } else if chars_eq_str(&k, "WATCHING") {
            Ok(MediaLibraryStatus::Watching)
        } else if chars_eq_str(&k, "COMPLETED") {
            Ok(MediaLibraryStatus::Completed)
        } else if chars_eq_str(&k, "ON_HOLD") {
            Ok(MediaLibraryStatus::OnHold)
        } else if chars_eq_str(&k, "DROPPED") {
            Ok(MediaLibraryStatus::Dropped)
        } else {
            Err(
                MediaError::validation(
                    "Library status must be PLANNED, WATCHING, COMPLETED, ON_HOLD, or DROPPED.",
                ),
            )
        }
    }
}

/// The trimmed, ASCII upper-cased characters that the enum parsers compare.
pub fn normalized_key(value: &str) -> (r: Vec<char>)
    ensures
        r@ == upper_ascii(trim(value@)),
{
    let v = chars_of(value);
    let t = trim_chars(&v);
    upper_ascii_chars(&t)
}

#[derive(Clone, Copy, Debug, PartialEq, Eq, Structural)]
pub enum MediaErrorKind {
    MissingCredential,
    Network,
    RateLimited,
    Unauthorized,
    ProviderUnavailable,
    NotFound,
    Validation,
    Duplicate,
    Database,
    ExternalOpen,
    Unknown,
}

impl MediaErrorKind {
    pub open spec fn label(self) -> Seq<char> {
        match self {
            MediaErrorKind::MissingCredential => "MissingCredential"@,
            MediaErrorKind::Network => "Network"@,
            MediaErrorKind::RateLimited => "RateLimited"@,
            MediaErrorKind::Unauthorized => "Unauthorized"@,
            MediaErrorKind::ProviderUnavailable => "ProviderUnavailable"@,
            MediaErrorKind::NotFound => "NotFound"@,
            MediaErrorKind::Validation => "Validation"@,
            MediaErrorKind::Duplicate => "Duplicate"@,
            MediaErrorKind::Database => "Database"@,
            MediaErrorKind::ExternalOpen => "ExternalOpen"@,
            MediaErrorKind::Unknown => "Unknown"@,
        }
    }

    /// The display text, which is the variant's name.
    pub fn as_str(self) -> (r: &'static str)
        ensures
            r@ == self.label(),
    {
        match self {
            MediaErrorKind::MissingCredential => "MissingCredential",
            MediaErrorKind::Network => "Network",
            MediaErrorKind::RateLimited => "RateLimited",
            MediaErrorKind::Unauthorized => "Unauthorized",
            MediaErrorKind::ProviderUnavailable => "ProviderUnavailable",
            MediaErrorKind::NotFound => "NotFound",
            MediaErrorKind::Validation => "Validation",
            MediaErrorKind::Duplicate => "Duplicate",
            MediaErrorKind::Database => "Database",
            MediaErrorKind::ExternalOpen => "ExternalOpen",
            MediaErrorKind::Unknown => "Unknown",
        }
    }
}

#[derive(Clone, Debug)]
pub struct MediaError {
    pub kind: MediaErrorKind,
    pub message: String,
}

impl MediaError {
    pub fn new(kind: MediaErrorKind, message: String) -> (r: MediaError)
        ensures
            r.kind == kind,
            r.message@ == message@,
    {
        MediaError { kind, message }
    }

    pub fn validation(message: &str) -> (r: MediaError)
        ensures
            r.kind == MediaErrorKind::Validation,
            r.message@ == message@,
    {
        MediaError::new(MediaErrorKind::Validation, owned(message))
    }

    pub fn database(message: &str) -> (r: MediaError)
        ensures
            r.kind == MediaErrorKind::Database,
            r.message@ == message@,
    {
        MediaError::new(MediaErrorKind::Database, owned(message))
    }

    pub fn not_found(message: &str) -> (r: MediaError)
        ensures
            r.kind == MediaErrorKind::NotFound,
            r.message@ == message@,
    {
        MediaError::new(MediaErrorKind::NotFound, owned(message))
    }

    /// The display text: the kind, a colon and a space, then the message.
    pub fn to_display_string(&self) -> (r: String)
        ensures
            r@ == self.kind.label() + ": "@ + self.message@,
    {
        let mut v = chars_of(self.kind.as_str());
        extend_str(&mut v, ": ");
        extend_str(&mut v, self.message.as_str());
        string_of(&v)
    }
}

#[derive(Clone, Copy, Debug, PartialEq, Eq)]
pub struct ProgressFacts {
    pub watched: i64,
    pub total: i64,
}

/// The status a series moves to when its watched-episode count changes.
pub open spec fn series_status(current: MediaLibraryStatus, facts: ProgressFacts) -> MediaLibraryStatus {
    if current.is_protected() {
        current
    } else if facts.total > 0 && facts.watched >= facts.total {
        MediaLibraryStatus::Completed
    } else if facts.watched > 0 || current == MediaLibraryStatus::Completed {
        MediaLibraryStatus::Watching
    } else {
        current
    }
}

pub fn automatic_series_status(current: MediaLibraryStatus, facts: ProgressFacts) -> (r:
    MediaLibraryStatus)
    ensures
        r == series_status(current, facts),
        current.is_protected() ==> r == current,
{
    if current.protects_from_automatic_transition() {
        return current;
    }
    if facts.total > 0 && facts.watched >= facts.total {
        MediaLibraryStatus::Completed
    } else if facts.watched > 0 || current == MediaLibraryStatus::Completed {
        MediaLibraryStatus::Watching
    } else {
        current
    }
}

/// The checks on an external URL, in the order they are made.
pub open spec fn http_url_error(url: Seq<char>) -> Option<Seq<char>> {
    let t = trim(url);
    let lower = lower_ascii(t);
    if t.len() == 0 {
        Some("A URL is required."@)
    } else if !(starts_with(lower, "http://"@) || starts_with(lower, "https://"@)) {
        Some("Only http and https URLs can be opened."@)
    } else if has_ws(t) {
        Some("The URL cannot contain whitespace."@)
    } else {
        None
    }
}

/// Accepts a trimmed http or https URL without whitespace.
pub fn validate_http_url(url: &str) -> (r: Result<String, MediaError>)
    ensures
        r is Ok <==> http_url_error(url@) is None,
        r matches Ok(s) ==> s@ == trim(url@),
        r matches Err(e) ==> e.kind == MediaErrorKind::Validation && Some(e.message@)
            == http_url_error(url@),
{
    let v = chars_of(url);
    let t = trim_chars(&v);
    let lower = lower_ascii_chars(&t);
    if t.len() == 0 {
        return Err(MediaError::validation("A URL is required."));
    }
    if !(starts_with_str(&lower, "http://") || starts_with_str(&lower, "https://")) {
        return Err(MediaError::validation("Only http and https URLs can be opened."));
    }
    if has_ws_exec(&t) {
        return Err(MediaError::validation("The URL cannot contain whitespace."));
    }
    Ok(string_of(&t))
}


/// Trimming and ASCII upper-casing leave a non-empty upper-case label with no
/// surrounding whitespace unchanged.
pub proof fn lemma_label_key(s: Seq<char>)
    requires
        s.len() > 0,
        !is_ws(s[0]),
        !is_ws(s.last()),
        forall|i: int| 0 <= i < s.len() ==> !('a' <= #[trigger] s[i] <= 'z'),
    ensures
        upper_ascii(trim(s)) == s,
{
    assert(trim_start(s) == s);
    assert(trim_end(s) == s);
    assert(upper_ascii(s) =~= s);
}

/// Every content type parses back from its display text.
pub proof fn content_type_label_round_trip(t: MediaContentType)
    ensures
        MediaContentType::from_label(t.label()) == Some(t),
{
    reveal_strlit("MOVIE");
    reveal_strlit("SERIES");
    lemma_label_key(t.label());
}

/// Every library status parses back from its display text, and the display
/// texts are distinct.
pub proof fn library_status_label_round_trip(t: MediaLibraryStatus)
    ensures
        MediaLibraryStatus::from_label(t.label()) == Some(t),
{
    reveal_strlit("PLANNED");
    reveal_strlit("WATCHING");
    reveal_strlit("COMPLETED");
    reveal_strlit("ON_HOLD");
    reveal_strlit("DROPPED");
    lemma_label_key(t.label());
}

/// An accepted URL is accepted again unchanged.
pub proof fn validated_url_is_stable(url: Seq<char>)
    requires
        http_url_error(url) is None,
    ensures
        http_url_error(trim(url)) is None,
        trim(trim(url)) == trim(url),
{
    lemma_trim_idempotent(url);
}


// ------------------------------------------------------------ records

#[derive(Clone, Debug)]
pub struct MediaCatalogSearchResult {
    pub external_id: i64,
    pub external_media_type: String,
    pub content_type: MediaContentType,
    pub title: String,
    pub original_title: String,
    pub overview: String,
    pub original_language: String,
    pub release_date: String,
    pub poster_path: String,
    pub backdrop_path: String,
    pub already_in_library: bool,
    pub existing_entry_id: Option<i64>,
}

#[derive(Clone, Debug)]
pub struct NormalizedMediaTitle {
    pub source_key: String,
    pub external_id: Option<i64>,
    pub external_media_type: Option<String>,
    pub content_type: MediaContentType,
    pub title: String,
    pub original_title: String,
    pub overview: String,
    pub original_language: String,
    pub release_date: String,
    pub first_air_date: String,
    pub last_air_date: String,
    pub runtime_minutes: Option<i64>,
    pub episode_runtime_minutes: Option<i64>,
    pub external_status: String,
    pub series_type: String,
    pub poster_path: String,
    pub backdrop_path: String,
    pub homepage_url: String,
    pub total_seasons: Option<i64>,
    pub total_episodes: Option<i64>,
    pub metadata_json: String,
}

#[derive(Clone, Debug)]
pub struct NormalizedMediaSeason {
    pub external_id: Option<i64>,
    pub season_number: i64,
    pub name: String,
    pub overview: String,
    pub air_date: String,
    pub poster_path: String,
    pub episode_count: i64,
    pub metadata_json: String,
    pub episodes: Vec<NormalizedMediaEpisode>,
}

#[derive(Clone, Debug)]
pub struct NormalizedMediaEpisode {
    pub external_id: Option<i64>,
    pub season_number: i64,
    pub episode_number: i64,
    pub name: String,
    pub overview: String,
    pub air_date: String,
    pub runtime_minutes: Option<i64>,
    pub still_path: String,
    pub metadata_json: String,
}

#[derive(Clone, Debug)]
pub struct NormalizedProviderAvailability {
    pub provider_external_id: i64,
    pub provider_name: String,
    pub provider_logo_path: String,
    pub monetization_type: String,
    pub display_priority: i64,
}

#[derive(Clone, Debug)]
pub struct NormalizedProviderSnapshot {
    pub region_code: String,
    pub source_link_url: String,
    pub providers: Vec<NormalizedProviderAvailability>,
}

#[derive(Clone, Debug)]
pub struct NormalizedMediaImport {
    pub title: NormalizedMediaTitle,
    pub seasons: Vec<NormalizedMediaSeason>,
    pub provider_snapshot: Option<NormalizedProviderSnapshot>,
    pub provider_error: Option<String>,
}

#[derive(Clone, Debug)]
pub struct AddCatalogMediaInput {
    pub external_id: i64,
    pub external_media_type: String,
    pub library_status: MediaLibraryStatus,
}

#[derive(Clone, Debug)]
pub struct MediaLibraryFilter {
    pub query: String,
    pub content_type: Option<MediaContentType>,
    pub library_status: Option<MediaLibraryStatus>,
    pub is_favorite: Option<bool>,
    pub tag_id: Option<i64>,
    pub has_unwatched: Option<bool>,
    pub provider_name: String,
    pub is_watch_next: Option<bool>,
    pub sort: String,
    pub sort_direction: String,
    pub limit: i64,
    pub offset: i64,
}

#[derive(Clone, Debug)]
pub struct MediaNextEpisode {
    pub id: i64,
    pub season_number: i64,
    pub episode_number: i64,
    pub name: String,
    pub air_date: String,
}

#[derive(Clone, Debug)]
pub struct MediaProviderSummary {
    pub provider_name: String,
    pub provider_logo_path: String,
}

#[derive(Clone, Debug)]
pub struct MediaEpisodeRecord {
    pub id: i64,
    pub external_id: Option<i64>,
    pub season_number: i64,
    pub episode_number: i64,
    pub name: String,
    pub overview: String,
    pub air_date: String,
    pub runtime_minutes: Option<i64>,
    pub still_path: String,
    pub is_present_in_source: bool,
    pub is_watched: bool,
    pub watched_at: String,
    pub notes: String,
}

#[derive(Clone, Debug)]
pub struct MediaSeasonRecord {
    pub id: i64,
    pub external_id: Option<i64>,
    pub season_number: i64,
    pub name: String,
    pub overview: String,
    pub air_date: String,
    pub poster_path: String,
    pub episode_count: i64,
    pub is_present_in_source: bool,
    pub watched_count: i64,
    pub progress_total: i64,
    pub episodes: Vec<MediaEpisodeRecord>,
}

#[derive(Clone, Debug)]
pub struct MediaTagRecord {
    pub id: i64,
    pub name: String,
    pub created_at: String,
    pub updated_at: String,
}

#[derive(Clone, Debug)]
pub struct MediaStreamingLinkRecord {
    pub id: i64,
    pub media_library_entry_id: i64,
    pub provider_name: String,
    pub url: String,
    pub link_type: String,
    pub is_preferred: bool,
    pub notes: String,
    pub created_at: String,
    pub updated_at: String,
}

#[derive(Clone, Debug)]
pub struct MediaStreamingLinkInput {
    pub provider_name: String,
    pub url: String,
    pub link_type: String,
    pub is_preferred: bool,
    pub notes: String,
}

#[derive(Clone, Debug)]
pub struct MediaProviderSnapshotRecord {
    pub id: i64,
    pub region_code: String,
    pub source_link_url: String,
    pub refreshed_at: String,
    pub last_refresh_status: String,
    pub last_refresh_error: String,
}

#[derive(Clone, Debug)]
pub struct MediaProviderAvailabilityRecord {
    pub id: i64,
    pub provider_external_id: i64,
    pub provider_name: String,
    pub provider_logo_path: String,
    pub monetization_type: String,
    pub display_priority: i64,
}

#[derive(Clone, Debug)]
pub struct MediaSettingsRecord {
    pub region_code: String,
    pub metadata_language: String,
    pub include_specials_in_completion: bool,
    pub updated_at: String,
}

#[derive(Clone, Debug)]
pub struct UpdateMediaSettingsInput {
    pub region_code: String,
    pub metadata_language: String,
    pub include_specials_in_completion: bool,
}


/// The library's sort when a filter names none.
pub fn default_media_sort() -> (r: String)
    ensures
        r@ == "RECENTLY_ADDED"@,
{
    String::from_str("RECENTLY_ADDED")
}

/// The sort direction when a filter names none.
pub fn default_sort_direction() -> (r: String)
    ensures
        r@ == "DESC"@,
{
    String::from_str("DESC")
}

/// The page size when a filter names none.
pub fn default_page_limit() -> (r: i64)
    ensures
        r == 100,
{
    100
}

} // verus!
