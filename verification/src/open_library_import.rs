//! What an Open Library record becomes when a book is imported: the import
//! of a search document, then the details of its edition and work records
//! filled in. The records' JSON is passed along as text, to be kept with
//! the source rows.
use crate::book_import::{link_views, source_view, source_views, BookImport, SourceView};
use crate::book_providers::{
    first_isbns, key_tail, key_tail_of, normalize_doc, normalized_isbns, open_library_result,
    OpenLibrarySearchDoc,
};
use crate::book_requests::{leading_year, release_year};
use crate::books::{
    plain_text, plain_text_description, NormalizedBookEdition, NormalizedBookLink,
    NormalizedBookSource,
};
use crate::media::{MediaError, MediaErrorKind};
use crate::merge::{eq_ignore_ascii_case, has_case_insensitive, string_views, IdentityView};
use crate::text::{
    chars_eq, chars_eq_str, chars_of, extend_chars, extend_str, i64_to_decimal, lower_ascii_chars,
    signed_decimal, string_of, trim, trim_chars,
};
use vstd::prelude::*;

verus! {

/// An edition record of Open Library, as far as an import reads it; the
/// language keys stand for the record's language references.
pub struct OpenLibraryEditionRecord {
    pub title: String,
    pub subtitle: Option<String>,
    pub publishers: Vec<String>,
    pub publish_date: Option<String>,
    pub isbn_10: Vec<String>,
    pub isbn_13: Vec<String>,
    pub number_of_pages: Option<i64>,
    pub covers: Vec<i64>,
    pub language_keys: Vec<String>,
}

/// A work record of Open Library, as far as an import reads it; the
/// description is its text, whichever form the record gave it in.
pub struct OpenLibraryWorkRecord {
    pub description: Option<String>,
    pub subjects: Vec<String>,
    pub first_publish_date: Option<String>,
    pub covers: Vec<i64>,
}

/// The cover image of an Open Library cover id.
pub open spec fn cover_url(cover_id: i64) -> Seq<char> {
    "https://covers.openlibrary.org/b/id/"@ + signed_decimal(cover_id as int) + "-L.jpg"@
}

fn cover_url_of(cover_id: i64) -> (r: String)
    ensures
        r@ == cover_url(cover_id),
{
    let mut u = chars_of("https://covers.openlibrary.org/b/id/");
    extend_chars(&mut u, &i64_to_decimal(cover_id));
    extend_str(&mut u, "-L.jpg");
    string_of(&u)
}

fn copy(s: &String) -> (r: String)
    ensures
        r@ == s@,
{
    string_of(&chars_of(s.as_str()))
}

fn copy_all(v: &Vec<String>) -> (r: Vec<String>)
    ensures
        string_views(r@) == string_views(v@),
{
    let mut out: Vec<String> = Vec::new();
    let mut i: usize = 0;
    while i < v.len()
        invariant
            i <= v.len(),
            string_views(out@) == string_views(v@).take(i as int),
        decreases v.len() - i,
    {
        let ghost before = out@;
        out.push(copy(&v[i]));
        assert(string_views(out@) =~= string_views(before).push(v@[i as int]@));
        assert(string_views(v@).take(i + 1) =~= string_views(v@).take(i as int).push(v@[i as int]@));
        i = i + 1;
    }
    assert(string_views(v@).take(v.len() as int) =~= string_views(v@));
    out
}

// ------------------------------------------------------------ the search document

pub const RECORD_WITHOUT_TITLE: &'static str = "Open Library returned a record without a title.";

/// The link of an imported document: to read when the scan is public, to
/// borrow when the e-book can be borrowed, otherwise for information.
pub open spec fn document_link_type(public_scan: bool, ebook_access: Option<Seq<char>>) -> Seq<char> {
    if public_scan {
        "READ"@
    } else if ebook_access == Some("borrowable"@) {
        "BORROW"@
    } else {
        "INFO"@
    }
}

pub open spec fn opt_view(v: Option<String>) -> Option<Seq<char>> {
    match v {
        Some(s) => Some(s@),
        None => None,
    }
}

/// The source rows of an import's identities, each carrying the payload;
/// edition identities belong to the first edition.
pub open spec fn identity_sources(ids: Seq<IdentityView>, payload: Seq<char>) -> Seq<SourceView> {
    ids.map_values(
        |id: IdentityView|
            (
                if id.1 == "EDITION"@ {
                    Some(0usize)
                } else {
                    None
                },
                id.0,
                id.1,
                id.2,
                id.3,
                payload,
            ),
    )
}

/// The import a search document gives, with its JSON as the payload of
/// its source rows.
pub open spec fn is_document_import(doc: OpenLibrarySearchDoc, payload: Seq<char>, i: BookImport) -> bool {
    let c = open_library_result(doc)->Some_0;
    let ebook = opt_view(doc.ebook_access);
    &&& i.title@ == c.title
    &&& i.subtitle@ == c.subtitle
    &&& i.description@ == plain_text(c.description)
    &&& string_views(i.authors@) == c.authors
    &&& i.first_publish_year == doc.first_publish_year
    &&& string_views(i.subjects@) == string_views(doc.subject@)
    &&& i.canonical_cover_url@ == c.cover_url
    &&& i.community_rating_count is None
    &&& i.editions@.len() == 1
    &&& i.editions@[0].title@ == c.title
    &&& i.editions@[0].subtitle@ == c.subtitle
    &&& i.editions@[0].format == c.format
    &&& i.editions@[0].isbn_10@ == c.isbn_10
    &&& i.editions@[0].isbn_13@ == c.isbn_13
    &&& i.editions@[0].publisher@ == c.publisher
    &&& i.editions@[0].published_date@ == c.published_date
    &&& i.editions@[0].language@ == c.language
    &&& i.editions@[0].page_count == c.page_count
    &&& i.editions@[0].audio_duration_minutes is None
    &&& i.editions@[0].cover_url@ == c.cover_url
    &&& i.editions@[0].is_ebook == (ebook is Some && ebook != Some("no_ebook"@))
    &&& i.editions@[0].access_viewability@ == match ebook {
        Some(e) => e,
        None => seq![],
    }
    &&& source_views(i.sources@) == identity_sources(c.source_identities, payload)
    &&& link_views(i.links@) == if c.info_url.len() > 0 {
        seq![
            (
                None::<usize>,
                "open_library"@,
                document_link_type(doc.public_scan_b, ebook),
                c.info_url,
                Seq::<char>::empty(),
            ),
        ]
    } else {
        seq![]
    }
}

/// The import of an Open Library search document; a document without a
/// title cannot be imported.
pub fn import_from_doc(doc: &OpenLibrarySearchDoc, payload: &String) -> (r: Result<
    BookImport,
    MediaError,
>)
    ensures
        r is Err <==> open_library_result(*doc) is None,
        r matches Err(e) ==> e.kind == MediaErrorKind::ProviderUnavailable && e.message@
            == RECORD_WITHOUT_TITLE@,
        r matches Ok(i) ==> is_document_import(*doc, payload@, i),
{
    let candidate = match normalize_doc(doc) {
        Some(c) => c,
        None => {
            return Err(
                MediaError::new(
                    MediaErrorKind::ProviderUnavailable,
                    string_of(&chars_of(RECORD_WITHOUT_TITLE)),
                ),
            );
        },
    };
    let ghost c = candidate@;
    let ghost ids = c.source_identities;
    let mut sources: Vec<NormalizedBookSource> = Vec::new();
    let mut k: usize = 0;
    while k < candidate.source_identities.len()
        invariant
            k <= candidate.source_identities.len(),
            ids == crate::merge::identity_views(candidate.source_identities@),
            source_views(sources@) == identity_sources(ids, payload@).take(k as int),
        decreases candidate.source_identities.len() - k,
    {
        let identity = &candidate.source_identities[k];
        let is_edition = chars_eq_str(&chars_of(identity.entity_type.as_str()), "EDITION");
        let s = NormalizedBookSource {
            edition_index: if is_edition {
                Some(0)
            } else {
                None
            },
            source_key: copy(&identity.source_key),
            entity_type: copy(&identity.entity_type),
            external_id: copy(&identity.external_id),
            source_url: copy(&identity.source_url),
            metadata_json: copy(payload),
        };
        let ghost before = sources@;
        sources.push(s);
        assert(source_views(sources@) =~= source_views(before).push(
            identity_sources(ids, payload@)[k as int],
        ));
        assert(identity_sources(ids, payload@).take(k + 1) =~= identity_sources(ids, payload@).take(
            k as int,
        ).push(identity_sources(ids, payload@)[k as int]));
        k = k + 1;
    }
    assert(identity_sources(ids, payload@).take(k as int) =~= identity_sources(ids, payload@));
    let mut links: Vec<NormalizedBookLink> = Vec::new();
    if chars_of(candidate.info_url.as_str()).len() > 0 {
        let borrowable = match &doc.ebook_access {
            Some(e) => chars_eq_str(&chars_of(e.as_str()), "borrowable"),
            None => false,
        };
        let link_type = if doc.public_scan_b {
            "READ"
        } else if borrowable {
            "BORROW"
        } else {
            "INFO"
        };
        links.push(
            NormalizedBookLink {
                edition_index: None,
                source_key: string_of(&chars_of("open_library")),
                link_type: string_of(&chars_of(link_type)),
                url: copy(&candidate.info_url),
                region_code: String::new(),
            },
        );
    }
    let (is_ebook, viewability) = match &doc.ebook_access {
        Some(e) => (!chars_eq_str(&chars_of(e.as_str()), "no_ebook"), copy(e)),
        None => (false, String::new()),
    };
    let edition = NormalizedBookEdition {
        title: copy(&candidate.title),
        subtitle: copy(&candidate.subtitle),
        format: candidate.format,
        isbn_10: copy(&candidate.isbn_10),
        isbn_13: copy(&candidate.isbn_13),
        publisher: copy(&candidate.publisher),
        published_date: copy(&candidate.published_date),
        language: copy(&candidate.language),
        page_count: candidate.page_count,
        audio_duration_minutes: None,
        cover_url: copy(&candidate.cover_url),
        is_ebook,
        access_viewability: viewability,
    };
    let mut editions: Vec<NormalizedBookEdition> = Vec::new();
    editions.push(edition);
    let r = BookImport {
            title: copy(&candidate.title),
            subtitle: copy(&candidate.subtitle),
            description: plain_text_description(candidate.description.as_str()),
            authors: copy_all(&candidate.authors),
            first_publish_year: doc.first_publish_year,
            subjects: copy_all(&doc.subject),
            canonical_cover_url: copy(&candidate.cover_url),
            community_rating_count: None,
            editions,
            sources,
            links,
            series: Vec::new(),
        };
    assert(r.editions@[0].is_ebook == (opt_view(doc.ebook_access) is Some && opt_view(doc.ebook_access) != Some("no_ebook"@)));
    assert(link_views(r.links@) == if c.info_url.len() > 0 {
        seq![
            (
                None::<usize>,
                "open_library"@,
                document_link_type(doc.public_scan_b, opt_view(doc.ebook_access)),
                c.info_url,
                Seq::<char>::empty(),
            ),
        ]
    } else {
        seq![]
    });
    assert(source_views(r.sources@) == identity_sources(c.source_identities, payload@));
    assert(string_views(r.authors@) == c.authors);
    Ok(r)
}

// ------------------------------------------------------------ source rows

/// The first Open Library source row at or after `i` with the entity type
/// and external id.
pub open spec fn source_index(v: Seq<SourceView>, entity_type: Seq<char>, external_id: Seq<char>, i: int) -> Option<
    int,
>
    decreases v.len() - i,
{
    if i < 0 || i >= v.len() {
        None
    } else if v[i].1 == "open_library"@ && v[i].2 == entity_type && v[i].3 == external_id {
        Some(i)
    } else {
        source_index(v, entity_type, external_id, i + 1)
    }
}

/// The source rows with the payload recorded for an Open Library record:
/// the row of that record takes the new URL, payload and edition, or a
/// new row is added.
pub open spec fn upserted(
    v: Seq<SourceView>,
    entity_type: Seq<char>,
    external_id: Seq<char>,
    url: Seq<char>,
    payload: Seq<char>,
    edition_index: Option<usize>,
) -> Seq<SourceView> {
    match source_index(v, entity_type, external_id, 0) {
        Some(j) => v.update(j, (edition_index, v[j].1, v[j].2, v[j].3, url, payload)),
        None => v.push((edition_index, "open_library"@, entity_type, external_id, url, payload)),
    }
}

proof fn lemma_source_index_bounds(v: Seq<SourceView>, entity_type: Seq<char>, external_id: Seq<char>, i: int)
    ensures
        source_index(v, entity_type, external_id, i) matches Some(j) ==> i <= j < v.len(),
    decreases v.len() - i,
{
    if 0 <= i < v.len() && !(v[i].1 == "open_library"@ && v[i].2 == entity_type && v[i].3
        == external_id) {
        lemma_source_index_bounds(v, entity_type, external_id, i + 1);
    }
}

fn upsert_source_payload(
    sources: &mut Vec<NormalizedBookSource>,
    entity_type: &str,
    external_id: &str,
    source_url: String,
    payload: &String,
    edition_index: Option<usize>,
)
    ensures
        source_views(final(sources)@) == upserted(
            source_views(old(sources)@),
            entity_type@,
            external_id@,
            source_url@,
            payload@,
            edition_index,
        ),
{
    let ghost v = source_views(sources@);
    let et = chars_of(entity_type);
    let id = chars_of(external_id);
    let mut i: usize = 0;
    while i < sources.len()
        invariant
            i <= sources.len(),
            v == source_views(sources@),
            sources@ == old(sources)@,
            et@ == entity_type@,
            id@ == external_id@,
            source_index(v, entity_type@, external_id@, 0) == source_index(
                v,
                entity_type@,
                external_id@,
                i as int,
            ),
        decreases sources.len() - i,
    {
        if chars_eq_str(&chars_of(sources[i].source_key.as_str()), "open_library") && chars_eq(
            &chars_of(sources[i].entity_type.as_str()),
            &et,
        ) && chars_eq(&chars_of(sources[i].external_id.as_str()), &id) {
            assert(v[i as int] == source_view(sources@[i as int]));
            assert(source_index(v, entity_type@, external_id@, i as int) == Some(i as int));
            let ghost before = sources@;
            let mut row = sources.remove(i);
            row.source_url = source_url;
            row.metadata_json = copy(payload);
            row.edition_index = edition_index;
            sources.insert(i, row);
            assert(sources@ =~= before.update(i as int, row));
            assert(source_views(sources@) =~= v.update(
                i as int,
                (edition_index, v[i as int].1, v[i as int].2, v[i as int].3, source_url@, payload@),
            ));
            return;
        }
        i = i + 1;
    }
    let ghost before = sources@;
    sources.push(
        NormalizedBookSource {
            edition_index,
            source_key: string_of(&chars_of("open_library")),
            entity_type: string_of(&et),
            external_id: string_of(&id),
            source_url,
            metadata_json: copy(payload),
        },
    );
    assert(source_views(sources@) =~= v.push(
        (edition_index, "open_library"@, entity_type@, external_id@, source_url@, payload@),
    ));
}

// ------------------------------------------------------------ the edition record

/// A value that replaces the current one when it is not blank.
pub open spec fn replaced_if_present(current: Seq<char>, value: Seq<char>) -> Seq<char> {
    if trim(value).len() > 0 {
        value
    } else {
        current
    }
}

fn fill_if_present(target: &mut String, value: &String)
    ensures
        final(target)@ == replaced_if_present(old(target)@, value@),
{
    if trim_chars(&chars_of(value.as_str())).len() > 0 {
        *target = copy(value);
    }
}

pub open spec fn first_text(v: Seq<String>) -> Seq<char> {
    if v.len() > 0 {
        v[0]@
    } else {
        seq![]
    }
}

pub open spec fn text_of(v: Option<String>) -> Seq<char> {
    match v {
        Some(s) => s@,
        None => seq![],
    }
}

/// The first edition after an edition record is applied: non-blank record
/// values replace the current ones, a positive page count replaces the
/// current count, the first language and cover are taken when present.
pub open spec fn applied_edition(e: NormalizedBookEdition, record: OpenLibraryEditionRecord, after: NormalizedBookEdition) -> bool {
    &&& after.title@ == replaced_if_present(e.title@, record.title@)
    &&& after.subtitle@ == replaced_if_present(e.subtitle@, text_of(record.subtitle))
    &&& after.publisher@ == replaced_if_present(e.publisher@, first_text(record.publishers@))
    &&& after.published_date@ == replaced_if_present(e.published_date@, text_of(record.publish_date))
    &&& after.page_count == match record.number_of_pages {
        Some(p) => if p > 0 {
            Some(p)
        } else {
            e.page_count
        },
        None => e.page_count,
    }
    &&& after.language@ == if record.language_keys@.len() > 0 {
        replaced_if_present(e.language@, key_tail(record.language_keys@[0]@))
    } else {
        e.language@
    }
    &&& after.isbn_10@ == replaced_if_present(e.isbn_10@, first_isbns(string_views(record.isbn_10@)).0)
    &&& after.isbn_13@ == replaced_if_present(e.isbn_13@, first_isbns(string_views(record.isbn_13@)).1)
    &&& after.cover_url@ == if record.covers@.len() > 0 {
        cover_url(record.covers@[0])
    } else {
        e.cover_url@
    }
    &&& after.format == e.format
    &&& after.audio_duration_minutes == e.audio_duration_minutes
    &&& after.is_ebook == e.is_ebook
    &&& after.access_viewability@ == e.access_viewability@
}

/// The work's own facts, which an edition record leaves alone.
pub open spec fn same_work_facts(a: BookImport, b: BookImport) -> bool {
    &&& a.title@ == b.title@
    &&& a.subtitle@ == b.subtitle@
    &&& a.description@ == b.description@
    &&& string_views(a.authors@) == string_views(b.authors@)
    &&& a.first_publish_year == b.first_publish_year
    &&& a.community_rating_count == b.community_rating_count
    &&& string_views(a.subjects@) == string_views(b.subjects@)
    &&& link_views(a.links@) == link_views(b.links@)
}

/// Applies an Open Library edition record to an import: its source row
/// takes the payload, and its facts fill in the first edition, whose cover
/// also becomes the import's cover when it has none.
pub fn apply_edition_record(
    import: &mut BookImport,
    edition_key: &str,
    record: &OpenLibraryEditionRecord,
    payload: &String,
)
    ensures
        source_views(final(import).sources@) == upserted(
            source_views(old(import).sources@),
            "EDITION"@,
            edition_key@,
            "https://openlibrary.org/books/"@ + edition_key@,
            payload@,
            Some(0usize),
        ),
        same_work_facts(*final(import), *old(import)),
        final(import).editions@.len() == old(import).editions@.len(),
        old(import).editions@.len() == 0 ==> final(import).canonical_cover_url@ == old(
            import,
        ).canonical_cover_url@,
        old(import).editions@.len() > 0 ==> applied_edition(
            old(import).editions@[0],
            *record,
            final(import).editions@[0],
        ),
        old(import).editions@.len() > 0 ==> final(import).canonical_cover_url@ == if record.covers@.len()
            > 0 && old(import).canonical_cover_url@.len() == 0 {
            cover_url(record.covers@[0])
        } else {
            old(import).canonical_cover_url@
        },
        forall|k: int|
            1 <= k < final(import).editions@.len() ==> #[trigger] final(import).editions@[k] == old(
                import,
            ).editions@[k],
{
    let mut url = chars_of("https://openlibrary.org/books/");
    extend_str(&mut url, edition_key);
    upsert_source_payload(
        &mut import.sources,
        "EDITION",
        edition_key,
        string_of(&url),
        payload,
        Some(0),
    );
    if import.editions.len() == 0 {
        return;
    }
    let ghost before = import.editions@;
    let mut edition = import.editions.remove(0);
    fill_if_present(&mut edition.title, &record.title);
    let subtitle = match &record.subtitle {
        Some(s) => copy(s),
        None => String::new(),
    };
    fill_if_present(&mut edition.subtitle, &subtitle);
    let publisher = if record.publishers.len() > 0 {
        copy(&record.publishers[0])
    } else {
        String::new()
    };
    fill_if_present(&mut edition.publisher, &publisher);
    let date = match &record.publish_date {
        Some(s) => copy(s),
        None => String::new(),
    };
    fill_if_present(&mut edition.published_date, &date);
    if let Some(pages) = record.number_of_pages {
        if pages > 0 {
            edition.page_count = Some(pages);
        }
    }
    if record.language_keys.len() > 0 {
        let language = key_tail_of(record.language_keys[0].as_str());
        fill_if_present(&mut edition.language, &language);
    }
    let (isbn_10, _) = normalized_isbns(&record.isbn_10);
    let (_, isbn_13) = normalized_isbns(&record.isbn_13);
    fill_if_present(&mut edition.isbn_10, &isbn_10);
    fill_if_present(&mut edition.isbn_13, &isbn_13);
    if record.covers.len() > 0 {
        let cover = cover_url_of(record.covers[0]);
        edition.cover_url = copy(&cover);
        if chars_of(import.canonical_cover_url.as_str()).len() == 0 {
            import.canonical_cover_url = cover;
        }
    }
    import.editions.insert(0, edition);
    assert(import.editions@ =~= before.update(0, edition));
}

// ------------------------------------------------------------ the work record

/// `target` followed by each candidate it does not hold yet, ignoring
/// ASCII case.
pub open spec fn appended_distinct(target: Seq<Seq<char>>, candidates: Seq<Seq<char>>) -> Seq<Seq<char>>
    decreases candidates.len(),
{
    if candidates.len() == 0 {
        target
    } else {
        let r = appended_distinct(target, candidates.drop_last());
        let c = candidates.last();
        if !has_case_insensitive(r, c) {
            r.push(c)
        } else {
            r
        }
    }
}

fn holds_ignoring_case(v: &Vec<String>, c: &String) -> (r: bool)
    ensures
        r == has_case_insensitive(string_views(v@), c@),
{
    let cl = lower_ascii_chars(&chars_of(c.as_str()));
    let mut i: usize = 0;
    while i < v.len()
        invariant
            i <= v.len(),
            cl@ == crate::text::lower_ascii(c@),
            forall|k: int| 0 <= k < i ==> !eq_ignore_ascii_case(#[trigger] string_views(v@)[k], c@),
        decreases v.len() - i,
    {
        if chars_eq(&lower_ascii_chars(&chars_of(v[i].as_str())), &cl) {
            assert(eq_ignore_ascii_case(string_views(v@)[i as int], c@));
            return true;
        }
        i = i + 1;
    }
    false
}

fn append_distinct(target: &mut Vec<String>, candidates: &Vec<String>)
    ensures
        string_views(final(target)@) == appended_distinct(
            string_views(old(target)@),
            string_views(candidates@),
        ),
{
    let ghost start = string_views(target@);
    let ghost cands = string_views(candidates@);
    let mut i: usize = 0;
    while i < candidates.len()
        invariant
            i <= candidates.len(),
            cands == string_views(candidates@),
            string_views(target@) == appended_distinct(start, cands.take(i as int)),
        decreases candidates.len() - i,
    {
        assert(cands.take(i + 1).drop_last() =~= cands.take(i as int));
        assert(cands.take(i + 1).last() == candidates@[i as int]@);
        if !holds_ignoring_case(target, &candidates[i]) {
            let ghost before = target@;
            target.push(copy(&candidates[i]));
            assert(string_views(target@) =~= string_views(before).push(candidates@[i as int]@));
        }
        i = i + 1;
    }
    assert(cands.take(candidates.len() as int) =~= cands);
}

/// Applies an Open Library work record to an import: its source row takes
/// the payload; its description, first publication year and cover fill in
/// what the import lacks; its subjects are added unless already there
/// (ignoring case).
pub fn apply_work_record(
    import: &mut BookImport,
    work_key: &str,
    record: &OpenLibraryWorkRecord,
    payload: &String,
)
    ensures
        source_views(final(import).sources@) == upserted(
            source_views(old(import).sources@),
            "WORK"@,
            work_key@,
            "https://openlibrary.org/works/"@ + work_key@,
            payload@,
            None,
        ),
        final(import).description@ == if old(import).description@.len() == 0 {
            match record.description {
                Some(d) => plain_text(d@),
                None => seq![],
            }
        } else {
            old(import).description@
        },
        string_views(final(import).subjects@) == appended_distinct(
            string_views(old(import).subjects@),
            string_views(record.subjects@),
        ),
        final(import).first_publish_year == match old(import).first_publish_year {
            Some(y) => Some(y),
            None => match record.first_publish_date {
                Some(d) => leading_year(d@),
                None => None,
            },
        },
        final(import).canonical_cover_url@ == if old(import).canonical_cover_url@.len() == 0
            && record.covers@.len() > 0 {
            cover_url(record.covers@[0])
        } else {
            old(import).canonical_cover_url@
        },
        final(import).title@ == old(import).title@,
        final(import).subtitle@ == old(import).subtitle@,
        final(import).community_rating_count == old(import).community_rating_count,
        string_views(final(import).authors@) == string_views(old(import).authors@),
        final(import).editions@ == old(import).editions@,
        link_views(final(import).links@) == link_views(old(import).links@),
{
    let mut url = chars_of("https://openlibrary.org/works/");
    extend_str(&mut url, work_key);
    upsert_source_payload(&mut import.sources, "WORK", work_key, string_of(&url), payload, None);
    if chars_of(import.description.as_str()).len() == 0 {
        import.description = match &record.description {
            Some(d) => plain_text_description(d.as_str()),
            None => String::new(),
        };
    }
    append_distinct(&mut import.subjects, &record.subjects);
    if import.first_publish_year.is_none() {
        import.first_publish_year = match &record.first_publish_date {
            Some(d) => release_year(d.as_str()),
            None => None,
        };
    }
    if chars_of(import.canonical_cover_url.as_str()).len() == 0 && record.covers.len() > 0 {
        import.canonical_cover_url = cover_url_of(record.covers[0]);
    }
}

} // verus!
