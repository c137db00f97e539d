//! The media library's services: the checks made before the repository is
//! asked to change anything.
use crate::database::{is_database_error, AppDatabase};
use crate::media::{
    http_url_error, validate_http_url, MediaCatalogSearchResult, MediaError, MediaErrorKind,
    MediaLibraryStatus,
    MediaSettingsRecord, NormalizedMediaImport,
    MediaStreamingLinkInput, MediaStreamingLinkRecord, MediaTagRecord, UpdateMediaSettingsInput,
};
use crate::media_progress::{movie_status, progress_error, queue_step};
use crate::media_repository::{database_or_not_found, missing_tag_message, MediaRepository};
use crate::text::{
    chars_eq_str, chars_of, trim, trim_chars, upper_ascii, upper_ascii_chars, utf8_len,
    utf8_len_capped,
};
use vstd::prelude::*;

verus! {

pub struct MediaCatalogService<'a> {
    pub repository: MediaRepository<'a>,
}

impl<'a> MediaCatalogService<'a> {
    pub fn new(database: &'a AppDatabase) -> (r: MediaCatalogService<'a>)
        ensures
            r.repository.database == database,
    {
        MediaCatalogService { repository: MediaRepository::new(database) }
    }

    /// The TMDB identity to refresh an entry from, if the entry came from
    /// TMDB and kept its identifiers.
    pub fn refresh_identity(&self, entry_id: i64) -> (r: Result<(i64, String), MediaError>)
        ensures
            r matches Err(e) ==> database_or_not_found(e, "Media library entry was not found."@)
                || e.kind == MediaErrorKind::Validation,
    {
        let identity = match self.repository.source_identity_for_entry(entry_id) {
            Ok(i) => i,
            Err(e) => return Err(e),
        };
        tmdb_refresh_identity(identity)
    }
}

/// Checks a stored source identity for a TMDB refresh: the source must be
/// TMDB and both identifiers present.
pub fn tmdb_refresh_identity(identity: (String, Option<i64>, Option<String>)) -> (r: Result<
    (i64, String),
    MediaError,
>)
    ensures
        identity.0@ != "tmdb"@ ==> (r matches Err(e) && e.kind == MediaErrorKind::Validation
            && e.message@ == "Manual entries do not have TMDB metadata to refresh."@),
        identity.0@ == "tmdb"@ && identity.1 is None ==> (r matches Err(e) && e.kind
            == MediaErrorKind::Validation && e.message@
            == "The saved TMDB title has no external identifier."@),
        identity.0@ == "tmdb"@ && identity.1 is Some && identity.2 is None ==> (r matches Err(e)
            && e.kind == MediaErrorKind::Validation && e.message@
            == "The saved TMDB title has no external media type."@),
        identity.0@ == "tmdb"@ && identity.1 is Some && identity.2 is Some ==> (r matches Ok(x)
            && x.0 == identity.1->0 && x.1@ == identity.2->0@),
{
    let (source_key, external_id, external_media_type) = identity;
    let key = chars_of(source_key.as_str());
    if !chars_eq_str(&key, "tmdb") {
        return Err(MediaError::validation("Manual entries do not have TMDB metadata to refresh."));
    }
    let id = match external_id {
        Some(id) => id,
        None => return Err(MediaError::validation("The saved TMDB title has no external identifier.")),
    };
    match external_media_type {
        Some(t) => Ok((id, t)),
        None => Err(MediaError::validation("The saved TMDB title has no external media type.")),
    }
}

pub struct MediaLibraryService<'a> {
    pub repository: MediaRepository<'a>,
}

/// The first problem with new settings: a region that is not two ASCII
/// letters, or a language code of fewer than 2 or more than 12 bytes.
pub open spec fn settings_problem(input: UpdateMediaSettingsInput) -> Option<Seq<char>> {
    let region = trim(input.region_code@);
    let language = trim(input.metadata_language@);
    if !(region.len() == 2 && crate::text::is_ascii_alpha(region[0]) && crate::text::is_ascii_alpha(
        region[1],
    )) {
        Some("Region must be a two-letter country code such as CA."@)
    } else if utf8_len(language) < 2 || utf8_len(language) > 12 {
        Some("Metadata language must be a language code such as en-CA."@)
    } else {
        None
    }
}

/// Checks new settings before they are saved.
pub fn validate_settings(input: &UpdateMediaSettingsInput) -> (r: Result<(), MediaError>)
    ensures
        r is Ok <==> settings_problem(*input) is None,
        r matches Err(e) ==> e.kind == MediaErrorKind::Validation && Some(e.message@)
            == settings_problem(*input),
{
    let region = trim_chars(&chars_of(input.region_code.as_str()));
    let ok_region = region.len() == 2 && crate::text::is_ascii_alpha_exec(region[0])
        && crate::text::is_ascii_alpha_exec(region[1]);
    if !ok_region {
        return Err(MediaError::validation("Region must be a two-letter country code such as CA."));
    }
    let language = trim_chars(&chars_of(input.metadata_language.as_str()));
    let n = utf8_len_capped(&language, 12);
    if n < 2 || n > 12 {
        return Err(
            MediaError::validation("Metadata language must be a language code such as en-CA."),
        );
    }
    Ok(())
}

impl<'a> MediaLibraryService<'a> {
    pub fn new(database: &'a AppDatabase) -> (r: MediaLibraryService<'a>)
        ensures
            r.repository.database == database,
    {
        MediaLibraryService { repository: MediaRepository::new(database) }
    }

    pub fn delete(&self, entry_id: i64) -> (r: Result<(), MediaError>)
        ensures
            r matches Err(e) ==> database_or_not_found(e, "Media library entry was not found."@),
    {
        self.repository.delete_entry(entry_id)
    }

    pub fn list_tags(&self) -> (r: Result<Vec<MediaTagRecord>, MediaError>)
        ensures
            r matches Err(e) ==> is_database_error(e),
    {
        self.repository.list_tags()
    }

    /// Adds a tag; a blank name is refused before anything is stored.
    pub fn create_tag(&self, name: &str) -> (r: Result<MediaTagRecord, MediaError>)
        ensures
            trim(name@).len() == 0 ==> (r matches Err(e) && e.kind == MediaErrorKind::Validation
                && e.message@ == "Tag name is required."@),
            r matches Err(e) ==> trim(name@).len() == 0 || is_database_error(e),
    {
        if trim_chars(&chars_of(name)).len() == 0 {
            return Err(MediaError::validation("Tag name is required."));
        }
        self.repository.create_tag(name)
    }

    pub fn delete_tag(&self, tag_id: i64) -> (r: Result<(), MediaError>)
        ensures
            r matches Err(e) ==> database_or_not_found(e, "Media tag was not found."@),
    {
        self.repository.delete_tag(tag_id)
    }

    pub fn get_settings(&self) -> (r: Result<MediaSettingsRecord, MediaError>)
        ensures
            r matches Err(e) ==> is_database_error(e),
    {
        self.repository.get_settings()
    }

    /// Saves checked settings; settings that fail the checks are refused
    /// before anything is written.
    pub fn update_settings(&self, input: &UpdateMediaSettingsInput) -> (r: Result<
        MediaSettingsRecord,
        MediaError,
    >)
        ensures
            settings_problem(*input) matches Some(m) ==> (r matches Err(e) && e.kind
                == MediaErrorKind::Validation && e.message@ == m),
            r matches Err(e) ==> database_or_not_found(e, "Series library entry was not found."@)
                || e.kind == MediaErrorKind::Validation,
    {
        match validate_settings(input) {
            Ok(()) => {},
            Err(e) => return Err(e),
        }
        self.repository.update_settings(input)
    }

    pub fn set_entry_tags(&self, entry_id: i64, tag_ids: &[i64]) -> (r: Result<(), MediaError>)
        ensures
            r matches Err(e) ==> database_or_not_found(e, "Media library entry was not found."@)
                || (e.kind == MediaErrorKind::NotFound && exists|i: int|
                0 <= i < tag_ids@.len() && e.message@ == missing_tag_message(#[trigger] tag_ids@[i])),
    {
        self.repository.set_entry_tags(entry_id, tag_ids)
    }

    pub fn add_to_watch_next(&self, entry_id: i64) -> (r: Result<(), MediaError>)
        ensures
            r matches Err(e) ==> is_database_error(e) || (e.kind == MediaErrorKind::Validation
                && e.message@ == "Books use the separate Read Next queue."@),
    {
        self.repository.add_to_watch_next(entry_id)
    }

    pub fn remove_from_watch_next(&self, entry_id: i64) -> (r: Result<(), MediaError>)
        ensures
            r matches Err(e) ==> database_or_not_found(e, "Media library entry was not found."@),
    {
        self.repository.remove_from_watch_next(entry_id)
    }

    pub fn move_watch_next(&self, entry_id: i64, direction: &str) -> (r: Result<(), MediaError>)
        ensures
            r matches Err(e) ==> is_database_error(e) || e.kind == MediaErrorKind::Validation,
            queue_step(direction@) is None ==> r is Err,
    {
        self.repository.move_watch_next(entry_id, direction)
    }
}

pub struct MediaProgressService<'a> {
    pub repository: MediaRepository<'a>,
}

impl<'a> MediaProgressService<'a> {
    pub fn new(database: &'a AppDatabase) -> (r: MediaProgressService<'a>)
        ensures
            r.repository.database == database,
    {
        MediaProgressService { repository: MediaRepository::new(database) }
    }

    pub fn set_movie_watched(&self, entry_id: i64, is_watched: bool, watched_at: &str) -> (r: Result<
        MediaLibraryStatus,
        MediaError,
    >)
        ensures
            r matches Err(e) ==> database_or_not_found(e, "Media library entry was not found."@)
                || e.kind == MediaErrorKind::Validation,
            r matches Ok(s) ==> exists|current: MediaLibraryStatus|
                s == #[trigger] movie_status(current, is_watched),
    {
        self.repository.set_movie_watched(entry_id, is_watched, watched_at)
    }

    pub fn set_episode_watched(
        &self,
        entry_id: i64,
        episode_id: i64,
        is_watched: bool,
        watched_at: &str,
    ) -> (r: Result<MediaLibraryStatus, MediaError>)
        ensures
            r matches Err(e) ==> progress_error(e),
    {
        self.repository.set_episode_watched(entry_id, episode_id, is_watched, watched_at)
    }

    pub fn set_season_watched(&self, entry_id: i64, season_number: i64, is_watched: bool) -> (r:
        Result<MediaLibraryStatus, MediaError>)
        ensures
            r matches Err(e) ==> progress_error(e),
    {
        self.repository.set_season_watched(entry_id, season_number, is_watched)
    }

    pub fn set_series_watched(&self, entry_id: i64, is_watched: bool) -> (r: Result<
        MediaLibraryStatus,
        MediaError,
    >)
        ensures
            r matches Err(e) ==> progress_error(e),
    {
        self.repository.set_series_watched(entry_id, is_watched)
    }

    pub fn mark_watched_through(&self, entry_id: i64, episode_id: i64) -> (r: Result<
        MediaLibraryStatus,
        MediaError,
    >)
        ensures
            r matches Err(e) ==> progress_error(e),
    {
        self.repository.mark_watched_through(entry_id, episode_id)
    }
}

pub struct MediaAvailabilityService<'a> {
    pub repository: MediaRepository<'a>,
}

/// The kinds of manual streaming link.
pub open spec fn media_link_type_ok(value: Seq<char>) -> bool {
    let t = upper_ascii(trim(value));
    t == "STREAM"@ || t == "RENT"@ || t == "BUY"@ || t == "OTHER"@
}

/// The first problem with a manual link: its URL, then its type.
pub open spec fn link_problem(input: MediaStreamingLinkInput) -> Option<Seq<char>> {
    match http_url_error(input.url@) {
        Some(e) => Some(e),
        None => if media_link_type_ok(input.link_type@) {
            None
        } else {
            Some("Manual link type must be STREAM, RENT, BUY, or OTHER."@)
        },
    }
}

impl<'a> MediaAvailabilityService<'a> {
    pub fn new(database: &'a AppDatabase) -> (r: MediaAvailabilityService<'a>)
        ensures
            r.repository.database == database,
    {
        MediaAvailabilityService { repository: MediaRepository::new(database) }
    }

    pub fn list_links(&self, entry_id: i64) -> (r: Result<Vec<MediaStreamingLinkRecord>, MediaError>)
        ensures
            r matches Err(e) ==> is_database_error(e),
    {
        self.repository.list_streaming_links(entry_id)
    }

    /// Checks a manual link: an http(s) URL and a known link type.
    pub fn validate_link(input: &MediaStreamingLinkInput) -> (r: Result<(), MediaError>)
        ensures
            r is Ok <==> link_problem(*input) is None,
            r matches Err(e) ==> e.kind == MediaErrorKind::Validation && Some(e.message@)
                == link_problem(*input),
    {
        match validate_http_url(input.url.as_str()) {
            Ok(_) => {},
            Err(e) => return Err(e),
        }
        let t = upper_ascii_chars(&trim_chars(&chars_of(input.link_type.as_str())));
        if chars_eq_str(&t, "STREAM") || chars_eq_str(&t, "RENT") || chars_eq_str(&t, "BUY")
            || chars_eq_str(&t, "OTHER") {
            Ok(())
        } else {
            Err(MediaError::validation("Manual link type must be STREAM, RENT, BUY, or OTHER."))
        }
    }

    /// Adds a manual link to an entry after checking it.
    pub fn create_link(&self, entry_id: i64, input: &MediaStreamingLinkInput) -> (r: Result<
        MediaStreamingLinkRecord,
        MediaError,
    >)
        ensures
            link_problem(*input) is Some ==> (r matches Err(e) && e.kind
                == MediaErrorKind::Validation && Some(e.message@) == link_problem(*input)),
            r matches Err(e) ==> link_problem(*input) is Some || database_or_not_found(
                e,
                "Media library entry was not found."@,
            ),
    {
        match Self::validate_link(input) {
            Ok(()) => {},
            Err(e) => return Err(e),
        }
        self.repository.create_streaming_link(entry_id, input)
    }

    /// Rewrites a manual link after checking it.
    pub fn update_link(&self, link_id: i64, input: &MediaStreamingLinkInput) -> (r: Result<
        MediaStreamingLinkRecord,
        MediaError,
    >)
        ensures
            link_problem(*input) is Some ==> (r matches Err(e) && e.kind
                == MediaErrorKind::Validation && Some(e.message@) == link_problem(*input)),
            r matches Err(e) ==> link_problem(*input) is Some || database_or_not_found(
                e,
                "Manual streaming link was not found."@,
            ),
    {
        match Self::validate_link(input) {
            Ok(()) => {},
            Err(e) => return Err(e),
        }
        self.repository.update_streaming_link(link_id, input)
    }

    pub fn delete_link(&self, link_id: i64) -> (r: Result<(), MediaError>)
        ensures
            r matches Err(e) ==> database_or_not_found(e, "Manual streaming link was not found."@),
    {
        self.repository.delete_streaming_link(link_id)
    }

    pub fn set_preferred(&self, entry_id: i64, link_id: i64) -> (r: Result<
        Vec<MediaStreamingLinkRecord>,
        MediaError,
    >)
        ensures
            r matches Err(e) ==> database_or_not_found(
                e,
                "Manual streaming link does not belong to this entry."@,
            ),
    {
        self.repository.set_preferred_streaming_link(entry_id, link_id)
    }

    /// The URL to open for an entry, checked as an http(s) URL.
    pub fn resolve_open_target(&self, entry_id: i64) -> (r: Result<String, MediaError>)
        ensures
            r matches Ok(u) ==> http_url_error(u@) is None && u@ == trim(u@),
            r matches Err(e) ==> database_or_not_found(
                e,
                "No preferred manual link or TMDB availability page is saved for this title."@,
            ) || e.kind == MediaErrorKind::Validation,
    {
        let url = match self.repository.resolve_streaming_target(entry_id) {
            Ok(u) => u,
            Err(e) => return Err(e),
        };
        let r = validate_http_url(url.as_str());
        proof {
            if r is Ok {
                crate::media::validated_url_is_stable(url@);
            }
        }
        r
    }
}


/// A catalogue of media metadata: searching it, and fetching a title with
/// its seasons and availability. What a provider answers is its own affair.
pub trait MediaMetadataProvider {
    fn search(&self, query: &str, language: &str) -> Result<Vec<MediaCatalogSearchResult>, MediaError>;

    fn fetch_import(
        &self,
        external_id: i64,
        external_media_type: &str,
        language: &str,
        region: &str,
    ) -> Result<NormalizedMediaImport, MediaError>;
}

/// Every result says whether it is in the library, and names its entry
/// exactly when it is.
pub open spec fn membership_marked(results: Seq<MediaCatalogSearchResult>) -> bool {
    forall|i: int|
        0 <= i < results.len() ==> (#[trigger] results[i]).already_in_library
            == results[i].existing_entry_id is Some
}

impl<'a> MediaCatalogService<'a> {
    /// Searches the provider in the library's metadata language and marks
    /// the results that are already in the library.
    pub fn search<P: MediaMetadataProvider>(&self, provider: &P, query: &str) -> (r: Result<
        Vec<MediaCatalogSearchResult>,
        MediaError,
    >)
        ensures
            r matches Ok(results) ==> membership_marked(results@),
    {
        let settings = match self.repository.get_settings() {
            Ok(s) => s,
            Err(e) => return Err(e),
        };
        let results = match provider.search(query, settings.metadata_language.as_str()) {
            Ok(r) => r,
            Err(e) => return Err(e),
        };
        self.mark_library_entries(results)
    }

    /// Marks each result with the library entry of its TMDB title, in order.
    pub fn mark_library_entries(&self, results: Vec<MediaCatalogSearchResult>) -> (r: Result<
        Vec<MediaCatalogSearchResult>,
        MediaError,
    >)
        ensures
            r matches Err(e) ==> is_database_error(e),
            r matches Ok(marked) ==> membership_marked(marked@) && marked@.len() == results@.len()
                && forall|i: int|
                0 <= i < marked@.len() ==> (#[trigger] marked@[i]).external_id == results@[i].external_id
                    && marked@[i].title@ == results@[i].title@,
    {
        let ghost all = results@;
        let mut out: Vec<MediaCatalogSearchResult> = Vec::new();
        let mut rest = results;
        let n = rest.len();
        let mut i: usize = 0;
        while rest.len() > 0
            invariant
                n == all.len(),
                i + rest@.len() == n,
                rest@ == all.skip(i as int),
                out@.len() == i,
                membership_marked(out@),
                forall|j: int|
                    0 <= j < i ==> (#[trigger] out@[j]).external_id == all[j].external_id
                        && out@[j].title@ == all[j].title@,
            decreases rest.len(),
        {
            let mut result = rest.remove(0);
            assert(result == all[i as int]);
            let existing = match self.repository.find_external_entry(
                result.external_id,
                result.external_media_type.as_str(),
            ) {
                Ok(found) => found,
                Err(e) => return Err(e),
            };
            result.already_in_library = existing.is_some();
            result.existing_entry_id = existing;
            out.push(result);
            i = i + 1;
            assert(rest@ =~= all.skip(i as int));
        }
        Ok(out)
    }
}

} // verus!
