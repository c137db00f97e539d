//! What is asked of the book providers and what their answers become
//! beyond catalog results: the query parameters of a search, the results a
//! search keeps, and the edition, links and year of a Google Books import
//! and of a Hardcover edition.
use crate::book_providers::{
    audio_minutes, exact_isbn, exact_isbn_of, google_result, hardcover_format,
    hardcover_format_of, normalize_doc, normalize_volume, open_library_result, GoogleVolume,
    OpenLibrarySearchDoc,
};
use crate::books::{
    spec_normalize_isbn, BookCatalogResult, BookSearchInput, BookSearchMode,
    NormalizedBookEdition, NormalizedBookLink,
};
use crate::gearblocks_scene_groups::{parse_i64, parsed_i64};
use crate::media::{MediaError, MediaErrorKind};
use crate::merge::{result_views, CatalogResultView};
use crate::text::{
    chars_of, decimal, keep_some, lower_ascii, lower_ascii_chars, slice_of,
    starts_with, starts_with_str, string_of, trim, trim_chars, u64_to_decimal, utf8_len,
    utf8_len_capped,
};
use vstd::prelude::*;

verus! {

// ------------------------------------------------------------ search requests

/// The query a search sends, when its input is acceptable: a normalised
/// ISBN in ISBN mode, otherwise the trimmed text of two characters or more.
pub open spec fn search_query(input: BookSearchInput) -> Option<Seq<char>> {
    if input.mode == BookSearchMode::Isbn {
        spec_normalize_isbn(trim(input.query@))
    } else if trim(input.query@).len() >= 2 {
        Some(trim(input.query@))
    } else {
        None
    }
}

/// The result limit a search asks for: the requested one within 1..=40.
pub open spec fn search_limit(limit: usize) -> nat {
    if limit < 1 {
        1
    } else if limit > 40 {
        40
    } else {
        limit as nat
    }
}

/// The Google Books query for a mode.
pub open spec fn google_query(mode: BookSearchMode, query: Seq<char>) -> Seq<char> {
    match mode {
        BookSearchMode::General => query,
        BookSearchMode::Title => "intitle:"@ + query,
        BookSearchMode::Author => "inauthor:"@ + query,
        BookSearchMode::Isbn => "isbn:"@ + query,
    }
}

/// The text before the first `-` or `_`.
pub open spec fn language_prefix(language: Seq<char>) -> Seq<char>
    decreases language.len(),
{
    if language.len() == 0 || language[0] == '-' || language[0] == '_' {
        seq![]
    } else {
        seq![language[0]] + language_prefix(language.drop_first())
    }
}

/// The parameters of a Google Books volume search: the query, the limit,
/// books only, the full projection, and the language when the setting
/// starts with a two-byte code.
pub open spec fn google_parameters(input: BookSearchInput, query: Seq<char>) -> Seq<(Seq<char>, Seq<char>)> {
    let base = seq![
        ("q"@, google_query(input.mode, query)),
        ("maxResults"@, decimal(search_limit(input.limit))),
        ("printType"@, "books"@),
        ("projection"@, "full"@),
    ];
    let prefix = language_prefix(input.language@);
    if utf8_len(prefix) == 2 {
        base.push(("langRestrict"@, lower_ascii(prefix)))
    } else {
        base
    }
}

pub const OPEN_LIBRARY_SEARCH_FIELDS: &'static str = "key,title,subtitle,author_name,first_publish_year,isbn,edition_key,cover_i,publisher,language,number_of_pages_median,subject,ebook_access,public_scan_b";

/// The parameter name an Open Library search puts its query under.
pub open spec fn open_library_query_key(mode: BookSearchMode) -> Seq<char> {
    match mode {
        BookSearchMode::General => "q"@,
        BookSearchMode::Title => "title"@,
        BookSearchMode::Author => "author"@,
        BookSearchMode::Isbn => "isbn"@,
    }
}

/// The parameters of an Open Library search: the limit, the fields, and
/// the query under the mode's name.
pub open spec fn open_library_parameters(input: BookSearchInput, query: Seq<char>) -> Seq<
    (Seq<char>, Seq<char>),
> {
    seq![
        ("limit"@, decimal(search_limit(input.limit))),
        ("fields"@, OPEN_LIBRARY_SEARCH_FIELDS@),
        (open_library_query_key(input.mode), query),
    ]
}

pub open spec fn pair_views(v: Seq<(String, String)>) -> Seq<(Seq<char>, Seq<char>)> {
    v.map_values(|p: (String, String)| (p.0@, p.1@))
}

fn pair(name: &str, value: &Vec<char>) -> (r: (String, String))
    ensures
        r.0@ == name@,
        r.1@ == value@,
{
    (string_of(&chars_of(name)), string_of(value))
}

fn checked_query(input: &BookSearchInput) -> (r: Result<Vec<char>, MediaError>)
    ensures
        r is Ok <==> search_query(*input) is Some,
        r matches Ok(q) ==> search_query(*input) == Some(q@),
        r matches Err(e) ==> e.kind == MediaErrorKind::Validation,
{
    match input.validated_query() {
        Ok(q) => Ok(chars_of(q.as_str())),
        Err(e) => Err(e),
    }
}

fn limit_text(limit: usize) -> (r: Vec<char>)
    ensures
        r@ == decimal(search_limit(limit)),
{
    let n: u64 = if limit < 1 {
        1
    } else if limit > 40 {
        40
    } else {
        limit as u64
    };
    u64_to_decimal(n)
}

fn language_prefix_of(language: &Vec<char>) -> (r: Vec<char>)
    ensures
        r@ == language_prefix(language@),
{
    let mut i: usize = 0;
    assert(language@.take(0) =~= Seq::<char>::empty());
    assert(language@.skip(0) =~= language@);
    while i < language.len() && language[i] != '-' && language[i] != '_'
        invariant
            i <= language.len(),
            language_prefix(language@) == language@.take(i as int) + language_prefix(
                language@.skip(i as int),
            ),
        decreases language.len() - i,
    {
        assert(language@.skip(i as int).drop_first() =~= language@.skip(i + 1));
        assert(language@.take(i + 1) =~= language@.take(i as int) + seq![language@[i as int]]);
        i = i + 1;
    }
    assert(language@.take(i as int) =~= language@.subrange(0, i as int));
    proof {
        if i < language.len() {
            assert(language@.skip(i as int)[0] == language@[i as int]);
        } else {
            assert(language@.skip(i as int) =~= Seq::<char>::empty());
        }
    }
    assert(language@.take(i as int) + language_prefix(language@.skip(i as int)) =~= language@.take(
        i as int,
    ));
    slice_of(language, 0, i)
}

/// The parameters of a Google Books search, or the query's problem.
pub fn google_search_parameters(input: &BookSearchInput) -> (r: Result<
    Vec<(String, String)>,
    MediaError,
>)
    ensures
        r is Ok <==> search_query(*input) is Some,
        r matches Ok(p) ==> pair_views(p@) == google_parameters(
            *input,
            search_query(*input)->Some_0,
        ),
        r matches Err(e) ==> e.kind == MediaErrorKind::Validation,
{
    let query = match checked_query(input) {
        Ok(q) => q,
        Err(e) => return Err(e),
    };
    let mut q = match input.mode {
        BookSearchMode::General => Vec::new(),
        BookSearchMode::Title => chars_of("intitle:"),
        BookSearchMode::Author => chars_of("inauthor:"),
        BookSearchMode::Isbn => chars_of("isbn:"),
    };
    crate::text::extend_chars(&mut q, &query);
    assert(q@ == google_query(input.mode, query@));
    let mut params: Vec<(String, String)> = Vec::new();
    params.push(pair("q", &q));
    params.push(pair("maxResults", &limit_text(input.limit)));
    params.push(pair("printType", &chars_of("books")));
    params.push(pair("projection", &chars_of("full")));
    let ghost base = pair_views(params@);
    let prefix = language_prefix_of(&chars_of(input.language.as_str()));
    if utf8_len_capped(&prefix, 3) == 2 {
        params.push(pair("langRestrict", &lower_ascii_chars(&prefix)));
        assert(pair_views(params@) =~= base.push(("langRestrict"@, lower_ascii(prefix@))));
    }
    assert(pair_views(params@) =~= google_parameters(*input, query@));
    Ok(params)
}

/// The parameters of an Open Library search, or the query's problem.
pub fn open_library_search_parameters(input: &BookSearchInput) -> (r: Result<
    Vec<(String, String)>,
    MediaError,
>)
    ensures
        r is Ok <==> search_query(*input) is Some,
        r matches Ok(p) ==> pair_views(p@) == open_library_parameters(
            *input,
            search_query(*input)->Some_0,
        ),
        r matches Err(e) ==> e.kind == MediaErrorKind::Validation,
{
    let query = match checked_query(input) {
        Ok(q) => q,
        Err(e) => return Err(e),
    };
    let key = match input.mode {
        BookSearchMode::General => "q",
        BookSearchMode::Title => "title",
        BookSearchMode::Author => "author",
        BookSearchMode::Isbn => "isbn",
    };
    let mut params: Vec<(String, String)> = Vec::new();
    params.push(pair("limit", &limit_text(input.limit)));
    params.push(pair("fields", &chars_of(OPEN_LIBRARY_SEARCH_FIELDS)));
    params.push(pair(key, &query));
    assert(pair_views(params@) =~= open_library_parameters(*input, query@));
    Ok(params)
}

// ------------------------------------------------------------ search results

/// The catalog results a Google Books search keeps: the volumes with a
/// title that is not blank.
pub open spec fn google_search_results(volumes: Seq<GoogleVolume>) -> Seq<CatalogResultView>
    decreases volumes.len(),
{
    if volumes.len() == 0 {
        seq![]
    } else {
        let rest = google_search_results(volumes.drop_last());
        let c = google_result(volumes.last());
        if trim(c.title).len() > 0 {
            rest.push(c)
        } else {
            rest
        }
    }
}

pub fn google_volume_results(volumes: &Vec<GoogleVolume>) -> (r: Vec<BookCatalogResult>)
    ensures
        result_views(r@) == google_search_results(volumes@),
{
    let mut out: Vec<BookCatalogResult> = Vec::new();
    let mut i: usize = 0;
    while i < volumes.len()
        invariant
            i <= volumes.len(),
            result_views(out@) == google_search_results(volumes@.take(i as int)),
        decreases volumes.len() - i,
    {
        assert(volumes@.take(i + 1).drop_last() =~= volumes@.take(i as int));
        let c = normalize_volume(&volumes[i]);
        if trim_chars(&chars_of(c.title.as_str())).len() > 0 {
            let ghost before = out@;
            out.push(c);
            assert(result_views(out@) =~= result_views(before).push(c@));
        }
        i = i + 1;
    }
    assert(volumes@.take(volumes.len() as int) =~= volumes@);
    out
}

/// The catalog results an Open Library search keeps: those of the
/// documents that make one.
pub open spec fn open_library_search_results(docs: Seq<OpenLibrarySearchDoc>) -> Seq<CatalogResultView> {
    keep_some(docs.map_values(|d: OpenLibrarySearchDoc| open_library_result(d)))
}

pub fn open_library_doc_results(docs: &Vec<OpenLibrarySearchDoc>) -> (r: Vec<BookCatalogResult>)
    ensures
        result_views(r@) == open_library_search_results(docs@),
{
    let ghost all = docs@.map_values(|d: OpenLibrarySearchDoc| open_library_result(d));
    let mut out: Vec<BookCatalogResult> = Vec::new();
    let mut i: usize = 0;
    while i < docs.len()
        invariant
            i <= docs.len(),
            all == docs@.map_values(|d: OpenLibrarySearchDoc| open_library_result(d)),
            result_views(out@) == keep_some(all.take(i as int)),
        decreases docs.len() - i,
    {
        assert(all.take(i + 1).drop_last() =~= all.take(i as int));
        assert(all.take(i + 1).last() == open_library_result(docs@[i as int]));
        match normalize_doc(&docs[i]) {
            Some(c) => {
                let ghost before = out@;
                out.push(c);
                assert(result_views(out@) =~= result_views(before).push(c@));
            },
            None => {},
        }
        i = i + 1;
    }
    assert(all.take(docs.len() as int) =~= all);
    out
}

// ------------------------------------------------------------ imports

/// The year at the start of a date: its first four characters read as an
/// integer, as `date.get(0..4)` and `parse::<i64>` give it.
pub open spec fn leading_year(date: Seq<char>) -> Option<i64> {
    if date.len() >= 4 {
        parsed_i64(date.take(4))
    } else {
        None
    }
}

pub fn release_year(date: &str) -> (r: Option<i64>)
    ensures
        r == leading_year(date@),
{
    let v = chars_of(date);
    if v.len() < 4 {
        return None;
    }
    let head = slice_of(&v, 0, 4);
    assert(v@.subrange(0, 4) =~= v@.take(4));
    parse_i64(&head)
}

/// A link a Google Books import keeps: an http or https URL, as given.
pub open spec fn kept_link(url: Seq<char>) -> bool {
    starts_with(url, "https://"@) || starts_with(url, "http://"@)
}

pub open spec fn link_views(v: Seq<NormalizedBookLink>) -> Seq<(Seq<char>, Seq<char>)> {
    v.map_values(|l: NormalizedBookLink| (l.link_type@, l.url@))
}

/// The links with one more appended when its URL is present and an http(s)
/// URL.
pub open spec fn with_link(
    links: Seq<(Seq<char>, Seq<char>)>,
    link_type: Seq<char>,
    url: Option<Seq<char>>,
) -> Seq<(Seq<char>, Seq<char>)> {
    match url {
        Some(u) => if kept_link(u) {
            links.push((link_type, u))
        } else {
            links
        },
        None => links,
    }
}

/// The links of a Google Books import, in order: the info page, the
/// preview, the shop and the web reader, each kept only when it is an
/// http(s) URL.
pub open spec fn google_import_links(
    info_url: Seq<char>,
    preview_url: Seq<char>,
    buy_link: Option<Seq<char>>,
    web_reader_link: Option<Seq<char>>,
) -> Seq<(Seq<char>, Seq<char>)> {
    with_link(
        with_link(
            with_link(with_link(seq![], "INFO"@, Some(info_url)), "PREVIEW"@, Some(preview_url)),
            "BUY"@,
            buy_link,
        ),
        "READ"@,
        web_reader_link,
    )
}

pub open spec fn all_google(links: Seq<NormalizedBookLink>) -> bool {
    forall|i: int| 0 <= i < links.len() ==> (#[trigger] links[i]).source_key@ == "google_books"@
}

fn push_link(links: &mut Vec<NormalizedBookLink>, link_type: &str, url: &String)
    ensures
        link_views(final(links)@) == with_link(link_views(old(links)@), link_type@, Some(url@)),
        all_google(old(links)@) ==> all_google(final(links)@),
{
    let u = chars_of(url.as_str());
    if starts_with_str(&u, "https://") || starts_with_str(&u, "http://") {
        let ghost before = links@;
        links.push(
            NormalizedBookLink {
                edition_index: None,
                source_key: string_of(&chars_of("google_books")),
                link_type: string_of(&chars_of(link_type)),
                url: string_of(&u),
                region_code: String::new(),
            },
        );
        assert(link_views(links@) =~= link_views(before).push((link_type@, url@)));
    }
}

/// The links of a Google Books import (see `google_import_links`), all of
/// Google Books and of no particular edition.
pub fn google_links(
    info_url: &String,
    preview_url: &String,
    buy_link: &Option<String>,
    web_reader_link: &Option<String>,
) -> (r: Vec<NormalizedBookLink>)
    ensures
        link_views(r@) == google_import_links(
            info_url@,
            preview_url@,
            match buy_link {
                Some(s) => Some(s@),
                None => None,
            },
            match web_reader_link {
                Some(s) => Some(s@),
                None => None,
            },
        ),
        all_google(r@),
{
    let mut links: Vec<NormalizedBookLink> = Vec::new();
    assert(link_views(links@) =~= Seq::<(Seq<char>, Seq<char>)>::empty());
    push_link(&mut links, "INFO", info_url);
    push_link(&mut links, "PREVIEW", preview_url);
    if let Some(u) = buy_link {
        push_link(&mut links, "BUY", u);
    }
    if let Some(u) = web_reader_link {
        push_link(&mut links, "READ", u);
    }
    links
}

pub const GOOGLE_VOLUME_WITHOUT_TITLE: &'static str = "Google Books returned a volume without a title.";

/// The edition a Google Books import describes, from the volume's catalog
/// result, its e-book flag and its viewability.
pub open spec fn is_google_edition(c: CatalogResultView, is_ebook: bool, viewability: Seq<char>, e: NormalizedBookEdition) -> bool {
    &&& e.title@ == c.title
    &&& e.subtitle@ == c.subtitle
    &&& e.format == c.format
    &&& e.isbn_10@ == c.isbn_10
    &&& e.isbn_13@ == c.isbn_13
    &&& e.publisher@ == c.publisher
    &&& e.published_date@ == c.published_date
    &&& e.language@ == c.language
    &&& e.page_count == c.page_count
    &&& e.audio_duration_minutes is None
    &&& e.cover_url@ == c.cover_url
    &&& e.is_ebook == is_ebook
    &&& e.access_viewability@ == viewability
}

/// The edition of a Google Books import; a volume whose title is blank
/// cannot be imported.
pub fn google_edition(candidate: &BookCatalogResult, is_ebook: bool, viewability: &String) -> (r:
    Result<NormalizedBookEdition, MediaError>)
    ensures
        r is Err <==> trim(candidate.title@).len() == 0,
        r matches Err(e) ==> e.kind == MediaErrorKind::ProviderUnavailable && e.message@
            == GOOGLE_VOLUME_WITHOUT_TITLE@,
        r matches Ok(e) ==> is_google_edition(candidate@, is_ebook, viewability@, e),
{
    if trim_chars(&chars_of(candidate.title.as_str())).len() == 0 {
        return Err(
            MediaError::new(
                MediaErrorKind::ProviderUnavailable,
                string_of(&chars_of(GOOGLE_VOLUME_WITHOUT_TITLE)),
            ),
        );
    }
    Ok(
        NormalizedBookEdition {
            title: string_of(&chars_of(candidate.title.as_str())),
            subtitle: string_of(&chars_of(candidate.subtitle.as_str())),
            format: candidate.format,
            isbn_10: string_of(&chars_of(candidate.isbn_10.as_str())),
            isbn_13: string_of(&chars_of(candidate.isbn_13.as_str())),
            publisher: string_of(&chars_of(candidate.publisher.as_str())),
            published_date: string_of(&chars_of(candidate.published_date.as_str())),
            language: string_of(&chars_of(candidate.language.as_str())),
            page_count: candidate.page_count,
            audio_duration_minutes: None,
            cover_url: string_of(&chars_of(candidate.cover_url.as_str())),
            is_ebook,
            access_viewability: string_of(&chars_of(viewability.as_str())),
        },
    )
}

/// The title of a Hardcover edition: its book's title, else its own, else
/// empty.
pub open spec fn hardcover_title_of(book_title: Option<Seq<char>>, edition_title: Option<Seq<char>>) -> Seq<
    char,
> {
    match book_title {
        Some(t) => t,
        None => match edition_title {
            Some(t) => t,
            None => seq![],
        },
    }
}

pub fn hardcover_title(book_title: &Option<String>, edition_title: &Option<String>) -> (r: String)
    ensures
        r@ == hardcover_title_of(
            match book_title {
                Some(s) => Some(s@),
                None => None,
            },
            match edition_title {
                Some(s) => Some(s@),
                None => None,
            },
        ),
{
    match book_title {
        Some(t) => string_of(&chars_of(t.as_str())),
        None => match edition_title {
            Some(t) => string_of(&chars_of(t.as_str())),
            None => String::new(),
        },
    }
}

pub open spec fn text_or_empty(v: Option<String>) -> Seq<char> {
    match v {
        Some(s) => s@,
        None => seq![],
    }
}

pub open spec fn str_view(v: Option<&str>) -> Option<Seq<char>> {
    match v {
        Some(s) => Some(s@),
        None => None,
    }
}

fn or_empty_text(v: &Option<String>) -> (r: String)
    ensures
        r@ == text_or_empty(*v),
{
    match v {
        Some(s) => string_of(&chars_of(s.as_str())),
        None => String::new(),
    }
}

/// The edition a Hardcover edition record describes.
pub open spec fn is_hardcover_edition(
    title: Seq<char>,
    subtitle: Option<String>,
    physical_format: Option<&str>,
    audio_seconds: Option<i64>,
    isbn_10: Option<&str>,
    isbn_13: Option<&str>,
    publisher: Option<String>,
    release_date: Option<String>,
    pages: Option<i64>,
    e: NormalizedBookEdition,
) -> bool {
    &&& e.title@ == title
    &&& e.subtitle@ == text_or_empty(subtitle)
    &&& e.format == hardcover_format(str_view(physical_format), audio_seconds)
    &&& e.isbn_10@ == exact_isbn(str_view(isbn_10), 10)
    &&& e.isbn_13@ == exact_isbn(str_view(isbn_13), 13)
    &&& e.publisher@ == text_or_empty(publisher)
    &&& e.published_date@ == text_or_empty(release_date)
    &&& e.language@.len() == 0
    &&& e.page_count == match pages {
        Some(p) => if p > 0 {
            Some(p)
        } else {
            None
        },
        None => None,
    }
    &&& e.audio_duration_minutes == match audio_seconds {
        Some(s) => if s > 0 {
            Some(((s + 59) / 60) as i64)
        } else {
            None
        },
        None => None,
    }
    &&& e.cover_url@.len() == 0
    &&& !e.is_ebook
    &&& e.access_viewability@.len() == 0
}

/// The edition of a Hardcover import, from the edition record's fields.
pub fn hardcover_edition(
    title: &String,
    subtitle: &Option<String>,
    physical_format: Option<&str>,
    audio_seconds: Option<i64>,
    isbn_10: Option<&str>,
    isbn_13: Option<&str>,
    publisher: &Option<String>,
    release_date: &Option<String>,
    pages: Option<i64>,
) -> (r: NormalizedBookEdition)
    ensures
        is_hardcover_edition(
            title@,
            *subtitle,
            physical_format,
            audio_seconds,
            isbn_10,
            isbn_13,
            *publisher,
            *release_date,
            pages,
            r,
        ),
{
    NormalizedBookEdition {
        title: string_of(&chars_of(title.as_str())),
        subtitle: or_empty_text(subtitle),
        format: hardcover_format_of(physical_format, audio_seconds),
        isbn_10: exact_isbn_of(isbn_10, 10),
        isbn_13: exact_isbn_of(isbn_13, 13),
        publisher: or_empty_text(publisher),
        published_date: or_empty_text(release_date),
        language: String::new(),
        page_count: match pages {
            Some(p) => if p > 0 {
                Some(p)
            } else {
                None
            },
            None => None,
        },
        audio_duration_minutes: audio_minutes(audio_seconds),
        cover_url: String::new(),
        is_ebook: false,
        access_viewability: String::new(),
    }
}

} // verus!
