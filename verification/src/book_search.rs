//! Book catalogue searches: what the providers' answers add up to, and how
//! the results are marked with the library entries they already match.
use crate::book_import::{merged_into, BookImport, BookMetadataMerger};
use crate::book_service::BookCatalogService;
use crate::books::{
    provider_display_name, BookCatalogResult, BookCatalogSearchResponse, BookProviderFailure,
    BookSearchInput, NormalizedBookEdition,
};
use crate::database::is_database_error;
use crate::media::{MediaError, MediaErrorKind};
use crate::media_repository::MediaRepository;
use crate::merge::{merge_all, merge_catalog_results, result_views, CatalogResultView};
use crate::text::{chars_of, join, join_chars, string_of, trim, trim_chars, views};
use vstd::prelude::*;

verus! {

/// What the provider coordination hands back: a value, and the providers
/// that failed on the way.
pub struct BookProviderResponse<T> {
    pub value: T,
    pub failures: Vec<BookProviderFailure>,
}

/// Source key and message of a provider failure.
pub open spec fn failure_views(f: Seq<BookProviderFailure>) -> Seq<(Seq<char>, Seq<char>)> {
    f.map_values(|x: BookProviderFailure| (x.source_key@, x.message@))
}

pub const GOOGLE_NOT_CONFIGURED: &'static str = "Not configured; Open Library fallback was used.";

/// What the Google Books search contributes: its results, or the failure
/// that stands for it (including not being configured).
pub open spec fn google_part(google: Option<Result<Vec<BookCatalogResult>, MediaError>>) -> (Seq<
    CatalogResultView,
>, Seq<(Seq<char>, Seq<char>)>) {
    match google {
        None => (seq![], seq![("google_books"@, GOOGLE_NOT_CONFIGURED@)]),
        Some(Ok(items)) => (result_views(items@), seq![]),
        Some(Err(e)) => (seq![], seq![("google_books"@, e.message@)]),
    }
}

/// The warning a failure shows: the provider's name and the message.
pub open spec fn failure_warning(f: (Seq<char>, Seq<char>)) -> Seq<char> {
    provider_display_name(f.0) + ": "@ + f.1
}

/// The outcome of a catalogue search from the Google Books outcome (none
/// when it is not configured) and the Open Library outcome: the merged
/// results and the failures, or the error as a kind and a message. Open
/// Library's error is the search's when nothing else was found; with no
/// results at all and some failure, the providers are unavailable.
pub open spec fn combined_search(
    google: Option<Result<Vec<BookCatalogResult>, MediaError>>,
    open_library: Result<Vec<BookCatalogResult>, MediaError>,
) -> Result<(Seq<CatalogResultView>, Seq<(Seq<char>, Seq<char>)>), (MediaErrorKind, Seq<char>)> {
    let (found, failures) = google_part(google);
    match open_library {
        Ok(items) => {
            let results = found + result_views(items@);
            if results.len() == 0 && failures.len() > 0 {
                Err(
                    (
                        MediaErrorKind::ProviderUnavailable,
                        join(failures.map_values(|f: (Seq<char>, Seq<char>)| failure_warning(f)), " "@),
                    ),
                )
            } else {
                Ok((merge_all(results).0, failures))
            }
        },
        Err(e) => if found.len() == 0 {
            Err((e.kind, e.message@))
        } else {
            Ok((merge_all(found).0, failures.push(("open_library"@, e.message@))))
        },
    }
}

fn failure(source_key: &str, message: &String) -> (r: BookProviderFailure)
    ensures
        r.source_key@ == source_key@,
        r.message@ == message@,
{
    BookProviderFailure {
        source_key: string_of(&chars_of(source_key)),
        message: string_of(&chars_of(message.as_str())),
    }
}

/// The warnings of the failures, in order.
fn warnings_of(failures: &Vec<BookProviderFailure>) -> (r: Vec<String>)
    ensures
        r@.map_values(|s: String| s@) == failure_views(failures@).map_values(
            |f: (Seq<char>, Seq<char>)| failure_warning(f),
        ),
{
    let ghost fv = failure_views(failures@);
    let mut out: Vec<String> = Vec::new();
    let mut i: usize = 0;
    while i < failures.len()
        invariant
            i <= failures.len(),
            fv == failure_views(failures@),
            out@.map_values(|s: String| s@) == fv.take(i as int).map_values(
                |f: (Seq<char>, Seq<char>)| failure_warning(f),
            ),
        decreases failures.len() - i,
    {
        let w = failures[i].warning_message();
        let ghost before = out@;
        out.push(w);
        assert(out@.map_values(|s: String| s@) =~= before.map_values(|s: String| s@).push(
            failure_warning(fv[i as int]),
        ));
        assert(fv.take(i + 1).map_values(|f: (Seq<char>, Seq<char>)| failure_warning(f))
            =~= fv.take(i as int).map_values(|f: (Seq<char>, Seq<char>)| failure_warning(f)).push(
            failure_warning(fv[i as int]),
        ));
        i = i + 1;
    }
    assert(fv.take(failures.len() as int) =~= fv);
    out
}

/// Combines the providers' search outcomes as `combined_search` says.
pub fn combine_provider_searches(
    google: Option<Result<Vec<BookCatalogResult>, MediaError>>,
    open_library: Result<Vec<BookCatalogResult>, MediaError>,
) -> (r: Result<BookProviderResponse<Vec<BookCatalogResult>>, MediaError>)
    ensures
        match combined_search(google, open_library) {
            Ok((results, failures)) => r matches Ok(response) && result_views(response.value@)
                == results && failure_views(response.failures@) == failures,
            Err((kind, message)) => r matches Err(e) && e.kind == kind && e.message@ == message,
        },
{
    let ghost g = google;
    let ghost o = open_library;
    let mut failures: Vec<BookProviderFailure> = Vec::new();
    let mut results: Vec<BookCatalogResult> = Vec::new();
    match google {
        None => {
            failures.push(
                failure("google_books", &string_of(&chars_of(GOOGLE_NOT_CONFIGURED))),
            );
        },
        Some(Ok(items)) => {
            results = items;
        },
        Some(Err(e)) => {
            failures.push(failure("google_books", &e.message));
        },
    }
    assert(result_views(results@) == google_part(g).0);
    assert(failure_views(failures@) =~= google_part(g).1);
    match open_library {
        Ok(items) => {
            let ghost before = results@;
            let mut items = items;
            results.append(&mut items);
            assert(result_views(results@) =~= google_part(g).0 + result_views(o->Ok_0@));
        },
        Err(e) => {
            if results.len() == 0 {
                return Err(e);
            }
            let ghost before = failures@;
            failures.push(failure("open_library", &e.message));
            assert(failure_views(failures@) =~= failure_views(before).push(
                ("open_library"@, e.message@),
            ));
        },
    }
    if results.len() == 0 && failures.len() > 0 {
        let warnings = warnings_of(&failures);
        let mut parts: Vec<Vec<char>> = Vec::new();
        let mut i: usize = 0;
        while i < warnings.len()
            invariant
                i <= warnings.len(),
                views(parts@) == warnings@.take(i as int).map_values(|s: String| s@),
            decreases warnings.len() - i,
        {
            let ghost before = parts@;
            parts.push(chars_of(warnings[i].as_str()));
            assert(views(parts@) =~= views(before).push(warnings@[i as int]@));
            assert(warnings@.take(i + 1).map_values(|s: String| s@) =~= warnings@.take(
                i as int,
            ).map_values(|s: String| s@).push(warnings@[i as int]@));
            i = i + 1;
        }
        assert(warnings@.take(warnings.len() as int) =~= warnings@);
        let message = join_chars(&parts, &chars_of(" "));
        return Err(MediaError::new(MediaErrorKind::ProviderUnavailable, string_of(&message)));
    }
    Ok(BookProviderResponse { value: merge_catalog_results(results), failures })
}

// ------------------------------------------------------------ marking results

pub const MATCHED_IN_LIBRARY: &'static str = "EXACT_IDENTITY_OR_ISBN";

/// A result after marking: everything kept but the library fields, which
/// say whether it is in the library and name the entry; a result matched
/// through one of its provider identities says so in its match basis.
pub open spec fn marked_from(before: CatalogResultView, after: CatalogResultView) -> bool {
    &&& after.already_in_library == after.existing_entry_id is Some
    &&& after.match_basis == if after.existing_entry_id is Some && before.source_identities.len()
        > 0 {
        MATCHED_IN_LIBRARY@
    } else {
        before.match_basis
    }
    &&& after == (CatalogResultView {
        already_in_library: after.already_in_library,
        existing_entry_id: after.existing_entry_id,
        match_basis: after.match_basis,
        ..before
    })
}

impl<'a> BookCatalogService<'a> {
    /// The search input with its language filled in from the settings when
    /// it is blank.
    pub fn resolved_search_input(&self, input: &BookSearchInput) -> (r: Result<
        BookSearchInput,
        MediaError,
    >)
        ensures
            r matches Ok(i) ==> i.query@ == input.query@ && i.mode == input.mode && i.limit
                == input.limit,
            r matches Ok(i) ==> (trim(input.language@).len() > 0 ==> i.language@
                == input.language@),
            r matches Err(e) ==> trim(input.language@).len() == 0 && is_database_error(e),
    {
        if trim_chars(&chars_of(input.language.as_str())).len() > 0 {
            return Ok(
                BookSearchInput {
                    query: string_of(&chars_of(input.query.as_str())),
                    mode: input.mode,
                    limit: input.limit,
                    language: string_of(&chars_of(input.language.as_str())),
                },
            );
        }
        let settings = match MediaRepository::new(self.repository.database).get_settings() {
            Ok(s) => s,
            Err(e) => return Err(e),
        };
        Ok(
            BookSearchInput {
                query: string_of(&chars_of(input.query.as_str())),
                mode: input.mode,
                limit: input.limit,
                language: settings.metadata_language,
            },
        )
    }

    /// Marks one result with the library entry it matches: through its
    /// provider identities in order, or, with none, through its own.
    fn mark_result(&self, result: BookCatalogResult) -> (r: Result<BookCatalogResult, MediaError>)
        ensures
            r matches Ok(after) ==> marked_from(result@, after@),
            r matches Err(e) ==> is_database_error(e),
    {
        let mut result = result;
        let ghost before = result@;
        let mut existing: Option<i64> = None;
        let mut matched = false;
        let mut i: usize = 0;
        while !matched && i < result.source_identities.len()
            invariant
                i <= result.source_identities.len(),
                result@ == before,
                existing is Some <==> matched,
                matched ==> result.source_identities.len() > 0,
            decreases result.source_identities.len() - i,
        {
            existing = match self.repository.find_existing_candidate(
                result.source_identities[i].source_key.as_str(),
                result.source_identities[i].external_id.as_str(),
                result.isbn_10.as_str(),
                result.isbn_13.as_str(),
            ) {
                Ok(found) => found,
                Err(e) => return Err(e),
            };
            if existing.is_some() {
                matched = true;
            }
            i = i + 1;
        }
        if result.source_identities.len() == 0 {
            existing = match self.repository.find_existing_candidate(
                result.source_key.as_str(),
                result.external_id.as_str(),
                result.isbn_10.as_str(),
                result.isbn_13.as_str(),
            ) {
                Ok(found) => found,
                Err(e) => return Err(e),
            };
        }
        if matched {
            result.match_basis = string_of(&chars_of(MATCHED_IN_LIBRARY));
        }
        result.already_in_library = existing.is_some();
        result.existing_entry_id = existing;
        Ok(result)
    }

    /// Marks every result with the library entry it matches, in order.
    pub fn mark_results(&self, results: Vec<BookCatalogResult>) -> (r: Result<
        Vec<BookCatalogResult>,
        MediaError,
    >)
        ensures
            r matches Ok(marked) ==> marked@.len() == results@.len() && forall|i: int|
                0 <= i < marked@.len() ==> marked_from(results@[i]@, #[trigger] marked@[i]@),
            r matches Err(e) ==> is_database_error(e),
    {
        let ghost all = results@;
        let mut out: Vec<BookCatalogResult> = Vec::new();
        let mut rest = results;
        let n = rest.len();
        let mut i: usize = 0;
        while rest.len() > 0
            invariant
                n == all.len(),
                i + rest@.len() == n,
                rest@ == all.skip(i as int),
                out@.len() == i,
                forall|j: int| 0 <= j < i ==> marked_from(all[j]@, #[trigger] out@[j]@),
            decreases rest.len(),
        {
            let x = rest.remove(0);
            assert(x == all[i as int]);
            let marked = match self.mark_result(x) {
                Ok(m) => m,
                Err(e) => return Err(e),
            };
            out.push(marked);
            i = i + 1;
            assert(rest@ =~= all.skip(i as int));
        }
        Ok(out)
    }

    /// The search response for what the providers answered: the results
    /// marked with their library entries, and a warning per failure.
    pub fn search_response(&self, response: BookProviderResponse<Vec<BookCatalogResult>>) -> (r:
        Result<BookCatalogSearchResponse, MediaError>)
        ensures
            r matches Ok(s) ==> s.results@.len() == response.value@.len() && (forall|i: int|
                0 <= i < s.results@.len() ==> marked_from(
                    response.value@[i]@,
                    #[trigger] s.results@[i]@,
                )) && s.warnings@.map_values(|w: String| w@) == failure_views(
                response.failures@,
            ).map_values(|f: (Seq<char>, Seq<char>)| failure_warning(f)),
            r matches Err(e) ==> is_database_error(e),
    {
        let warnings = warnings_of(&response.failures);
        let results = match self.mark_results(response.value) {
            Ok(m) => m,
            Err(e) => return Err(e),
        };
        Ok(BookCatalogSearchResponse { results, warnings })
    }

    /// Finishes a search once the providers have answered the input that
    /// `resolved_search_input` gave: their error is handed back unchanged,
    /// an answer becomes `search_response`.
    pub fn search_outcome(&self, fetched: Result<BookProviderResponse<Vec<BookCatalogResult>>, MediaError>) -> (r:
        Result<BookCatalogSearchResponse, MediaError>)
        ensures
            fetched matches Err(e) ==> r == Err::<BookCatalogSearchResponse, MediaError>(e),
            fetched matches Ok(response) ==> (r matches Ok(s) ==> s.results@.len() == response.value@.len()
                && (forall|i: int|
                0 <= i < s.results@.len() ==> marked_from(
                    response.value@[i]@,
                    #[trigger] s.results@[i]@,
                ))),
            fetched is Ok ==> (r matches Err(e) ==> is_database_error(e)),
    {
        match fetched {
            Ok(response) => self.search_response(response),
            Err(e) => Err(e),
        }
    }
}

// ------------------------------------------------------------ imports

/// Where a catalogue import is fetched from.
#[derive(Clone, Copy, Debug, PartialEq, Eq, Structural)]
pub enum ImportSource {
    GoogleBooks,
    OpenLibrary,
}

pub const GOOGLE_KEY_REQUIRED: &'static str = "GOOGLE_BOOKS_API_KEY is required to import this Google Books result.";

pub const UNSUPPORTED_IMPORT_SOURCE: &'static str = "Book imports support google_books or open_library sources.";

/// The provider an import is fetched from, by the result's trimmed source
/// key: Google Books only when it is configured.
pub open spec fn import_source_of(source_key: Seq<char>, google_configured: bool) -> Result<
    ImportSource,
    (MediaErrorKind, Seq<char>),
> {
    let k = trim(source_key);
    if k == "google_books"@ {
        if google_configured {
            Ok(ImportSource::GoogleBooks)
        } else {
            Err((MediaErrorKind::MissingCredential, GOOGLE_KEY_REQUIRED@))
        }
    } else if k == "open_library"@ {
        Ok(ImportSource::OpenLibrary)
    } else {
        Err((MediaErrorKind::Validation, UNSUPPORTED_IMPORT_SOURCE@))
    }
}

pub fn import_source(source_key: &str, google_configured: bool) -> (r: Result<
    ImportSource,
    MediaError,
>)
    ensures
        match import_source_of(source_key@, google_configured) {
            Ok(s) => r == Ok::<ImportSource, MediaError>(s),
            Err((kind, message)) => r matches Err(e) && e.kind == kind && e.message@ == message,
        },
{
    let k = trim_chars(&chars_of(source_key));
    if crate::text::chars_eq_str(&k, "google_books") {
        if google_configured {
            Ok(ImportSource::GoogleBooks)
        } else {
            Err(
                MediaError::new(
                    MediaErrorKind::MissingCredential,
                    string_of(&chars_of(GOOGLE_KEY_REQUIRED)),
                ),
            )
        }
    } else if crate::text::chars_eq_str(&k, "open_library") {
        Ok(ImportSource::OpenLibrary)
    } else {
        Err(MediaError::validation(UNSUPPORTED_IMPORT_SOURCE))
    }
}

/// The ISBN an import is enriched by: the first edition's non-empty
/// ISBN-13, else the first non-empty ISBN-10.
pub open spec fn first_isbn_13(editions: Seq<NormalizedBookEdition>) -> Option<Seq<char>>
    decreases editions.len(),
{
    if editions.len() == 0 {
        None
    } else if editions[0].isbn_13@.len() > 0 {
        Some(editions[0].isbn_13@)
    } else {
        first_isbn_13(editions.drop_first())
    }
}

pub open spec fn first_isbn_10(editions: Seq<NormalizedBookEdition>) -> Option<Seq<char>>
    decreases editions.len(),
{
    if editions.len() == 0 {
        None
    } else if editions[0].isbn_10@.len() > 0 {
        Some(editions[0].isbn_10@)
    } else {
        first_isbn_10(editions.drop_first())
    }
}

pub open spec fn enrichment_isbn(editions: Seq<NormalizedBookEdition>) -> Option<Seq<char>> {
    match first_isbn_13(editions) {
        Some(i) => Some(i),
        None => first_isbn_10(editions),
    }
}

pub fn preferred_isbn(import: &BookImport) -> (r: Option<String>)
    ensures
        match r {
            Some(s) => enrichment_isbn(import.editions@) == Some(s@),
            None => enrichment_isbn(import.editions@) is None,
        },
{
    let ghost e = import.editions@;
    let mut i: usize = 0;
    assert(e.skip(0) =~= e);
    while i < import.editions.len()
        invariant
            i <= import.editions.len(),
            e == import.editions@,
            first_isbn_13(e) == first_isbn_13(e.skip(i as int)),
        decreases import.editions.len() - i,
    {
        assert(e.skip(i as int).drop_first() =~= e.skip(i + 1));
        assert(e.skip(i as int)[0] == e[i as int]);
        if chars_of(import.editions[i].isbn_13.as_str()).len() > 0 {
            return Some(string_of(&chars_of(import.editions[i].isbn_13.as_str())));
        }
        i = i + 1;
    }
    assert(e.skip(i as int).len() == 0);
    let mut j: usize = 0;
    assert(e.skip(0) =~= e);
    assert(e.skip(0) =~= e.skip(j as int));
    while j < import.editions.len()
        invariant
            j <= import.editions.len(),
            e == import.editions@,
            first_isbn_13(e) is None,
            first_isbn_10(e) == first_isbn_10(e.skip(j as int)),
        decreases import.editions.len() - j,
    {
        assert(e.skip(j as int).drop_first() =~= e.skip(j + 1));
        assert(e.skip(j as int)[0] == e[j as int]);
        if chars_of(import.editions[j].isbn_10.as_str()).len() > 0 {
            return Some(string_of(&chars_of(import.editions[j].isbn_10.as_str())));
        }
        j = j + 1;
    }
    None
}

/// What an enrichment from a provider does to an import: a found import is
/// merged in, nothing found changes nothing, and a failure is recorded
/// under the provider.
pub fn apply_enrichment(
    import: &mut BookImport,
    failures: &mut Vec<BookProviderFailure>,
    source_key: &str,
    outcome: Result<Option<BookImport>, MediaError>,
)
    ensures
        outcome matches Err(e) ==> *final(import) == *old(import) && failure_views(final(failures)@)
            == failure_views(old(failures)@).push((source_key@, e.message@)),
        outcome matches Ok(None) ==> *final(import) == *old(import) && final(failures)@ == old(
            failures,
        )@,
        outcome matches Ok(Some(enrichment)) ==> final(failures)@ == old(failures)@ && merged_into(
            *old(import),
            enrichment,
            *final(import),
        ),
{
    match outcome {
        Ok(Some(enrichment)) => {
            BookMetadataMerger::merge(import, enrichment);
        },
        Ok(None) => {},
        Err(e) => {
            let ghost before = failures@;
            failures.push(failure(source_key, &e.message));
            assert(failure_views(failures@) =~= failure_views(before).push(
                (source_key@, e.message@),
            ));
        },
    }
}

} // verus!
