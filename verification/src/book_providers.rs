//! What the book providers' records become: Open Library search documents
//! and Google Books volumes as catalog results, and the edition facts that a
//! Hardcover record gives.
use crate::books::{
    normalize_isbn, plain_text, plain_text_description, spec_normalize_isbn, BookCatalogResult,
    BookFormat, BookSourceIdentity,
};
use crate::markup::rfind_in;
use crate::media::{MediaError, MediaErrorKind};
use crate::merge::{identity_views, string_views, CatalogResultView, IdentityView};
use crate::text::{
    chars_of, contains, contains_str, extend_chars, extend_str, i64_to_decimal,
    lower_ascii, lower_ascii_chars, owned, rfind, signed_decimal, slice_of, starts_with,
    starts_with_str, string_of, trim, trim_chars,
};
use vstd::prelude::*;

verus! {

// ------------------------------------------------------------ shared pieces

/// The first text of a list, or the empty text.
pub open spec fn first_or_empty(v: Seq<String>) -> Seq<char> {
    if v.len() > 0 {
        v[0]@
    } else {
        seq![]
    }
}

/// An optional text, or the empty text.
pub open spec fn or_empty(v: Option<String>) -> Seq<char> {
    match v {
        Some(s) => s@,
        None => seq![],
    }
}

fn first_text(v: &Vec<String>) -> (r: String)
    ensures
        r@ == first_or_empty(v@),
{
    if v.len() > 0 {
        v[0].clone()
    } else {
        String::new()
    }
}

fn text_or_empty(v: &Option<String>) -> (r: String)
    ensures
        r@ == or_empty(*v),
{
    match v {
        Some(s) => s.clone(),
        None => String::new(),
    }
}

pub(crate) fn clone_texts(v: &Vec<String>) -> (r: Vec<String>)
    ensures
        string_views(r@) == string_views(v@),
{
    let mut r: Vec<String> = Vec::new();
    let mut i: usize = 0;
    while i < v.len()
        invariant
            i <= v.len(),
            r@.len() == i,
            forall|j: int| 0 <= j < i ==> (#[trigger] r@[j])@ == v@[j]@,
        decreases v.len() - i,
    {
        r.push(v[i].clone());
        i = i + 1;
    }
    assert(string_views(r@) =~= string_views(v@));
    r
}

/// A page count that is positive, else none.
pub open spec fn positive(v: Option<i64>) -> Option<i64> {
    match v {
        Some(n) => if n > 0 {
            Some(n)
        } else {
            None
        },
        None => None,
    }
}

fn positive_of(v: Option<i64>) -> (r: Option<i64>)
    ensures
        r == positive(v),
{
    match v {
        Some(n) => if n > 0 {
            Some(n)
        } else {
            None
        },
        None => None,
    }
}

fn normalized_of(value: &String) -> (r: Vec<char>)
    ensures
        match spec_normalize_isbn(value@) {
            Some(n) => r@ == n,
            None => r@.len() == 0,
        },
{
    match normalize_isbn(value.as_str()) {
        Some(n) => chars_of(n.as_str()),
        None => Vec::new(),
    }
}

// ------------------------------------------------------------ Open Library

/// A document of an Open Library search: the fields that a catalog result
/// reads.
pub struct OpenLibrarySearchDoc {
    pub key: String,
    pub title: String,
    pub subtitle: Option<String>,
    pub author_name: Vec<String>,
    pub first_publish_year: Option<i64>,
    pub isbn: Vec<String>,
    pub edition_key: Vec<String>,
    pub cover_i: Option<i64>,
    pub publisher: Vec<String>,
    pub language: Vec<String>,
    pub number_of_pages_median: Option<i64>,
    pub subject: Vec<String>,
    pub ebook_access: Option<String>,
    pub public_scan_b: bool,
}

/// The first ISBN-10 and the first ISBN-13 among the values, each once
/// normalised; empty where there is none.
pub open spec fn first_isbns(values: Seq<Seq<char>>) -> (Seq<char>, Seq<char>)
    decreases values.len(),
{
    if values.len() == 0 {
        (seq![], seq![])
    } else {
        let (i10, i13) = first_isbns(values.drop_last());
        match spec_normalize_isbn(values.last()) {
            Some(n) => if n.len() == 10 && i10.len() == 0 {
                (n, i13)
            } else if n.len() == 13 && i13.len() == 0 {
                (i10, n)
            } else {
                (i10, i13)
            },
            None => (i10, i13),
        }
    }
}

pub fn normalized_isbns(values: &Vec<String>) -> (r: (String, String))
    ensures
        (r.0@, r.1@) == first_isbns(string_views(values@)),
{
    let mut i10: Vec<char> = Vec::new();
    let mut i13: Vec<char> = Vec::new();
    let mut i: usize = 0;
    while i < values.len()
        invariant
            i <= values.len(),
            (i10@, i13@) == first_isbns(string_views(values@).take(i as int)),
        decreases values.len() - i,
    {
        assert(string_views(values@).take(i + 1).drop_last() =~= string_views(values@).take(
            i as int,
        ));
        assert(string_views(values@).take(i + 1).last() == values[i as int]@);
        let n = normalized_of(&values[i]);
        if n.len() == 10 && i10.len() == 0 {
            i10 = n;
        } else if n.len() == 13 && i13.len() == 0 {
            i13 = n;
        }
        i = i + 1;
    }
    assert(string_views(values@).take(values.len() as int) =~= string_views(values@));
    (string_of(&i10), string_of(&i13))
}

/// The last segment of a slash-separated key, as `rsplit('/').next()`
/// gives it.
pub open spec fn key_tail(value: Seq<char>) -> Seq<char> {
    match rfind(value, seq!['/']) {
        Some(k) => value.skip(k + 1),
        None => value,
    }
}

pub fn key_tail_of(value: &str) -> (r: String)
    ensures
        r@ == key_tail(value@),
{
    let v = chars_of(value);
    let slash = vec!['/'];
    assert(slash@ =~= seq!['/']);
    match rfind_in(&v, &slash) {
        Some(k) => {
            let len = v.len();
            let tail = slice_of(&v, k + 1, len);
            assert(tail@ =~= v@.skip(k + 1));
            string_of(&tail)
        },
        None => string_of(&v),
    }
}

/// What an Open Library search document becomes: nothing without a title;
/// otherwise a result identified by its edition (or else its work), with
/// the work and edition pages as identities, the cover by cover id, and
/// the first publisher and language.
pub open spec fn open_library_result(doc: OpenLibrarySearchDoc) -> Option<CatalogResultView> {
    let title = trim(doc.title@);
    if title.len() == 0 {
        None
    } else {
        let (isbn_10, isbn_13) = first_isbns(string_views(doc.isbn@));
        let work_key = key_tail(doc.key@);
        let edition_key = first_or_empty(doc.edition_key@);
        let info_url = if work_key.len() > 0 {
            "https://openlibrary.org/works/"@ + work_key
        } else if edition_key.len() > 0 {
            "https://openlibrary.org/books/"@ + edition_key
        } else {
            seq![]
        };
        let work: Seq<IdentityView> = if work_key.len() > 0 {
            seq![("open_library"@, "WORK"@, work_key, info_url)]
        } else {
            seq![]
        };
        let edition: Seq<IdentityView> = if edition_key.len() > 0 {
            seq![
                (
                    "open_library"@,
                    "EDITION"@,
                    edition_key,
                    "https://openlibrary.org/books/"@ + edition_key,
                ),
            ]
        } else {
            seq![]
        };
        Some(
            CatalogResultView {
                source_key: "open_library"@,
                external_id: if edition_key.len() == 0 {
                    work_key
                } else {
                    edition_key
                },
                title,
                subtitle: or_empty(doc.subtitle),
                authors: string_views(doc.author_name@),
                published_date: match doc.first_publish_year {
                    Some(y) => signed_decimal(y as int),
                    None => seq![],
                },
                publisher: first_or_empty(doc.publisher@),
                isbn_10,
                isbn_13,
                page_count: positive(doc.number_of_pages_median),
                language: first_or_empty(doc.language@),
                format: BookFormat::Unknown,
                cover_url: match doc.cover_i {
                    Some(c) => "https://covers.openlibrary.org/b/id/"@ + signed_decimal(c as int)
                        + "-L.jpg"@,
                    None => seq![],
                },
                description: seq![],
                work_key,
                edition_key,
                info_url,
                preview_url: seq![],
                already_in_library: false,
                existing_entry_id: None,
                match_basis: "PROVIDER_ID"@,
                provider_badges: seq!["Open Library"@],
                source_identities: work + edition,
            },
        )
    }
}

fn identity(source_key: &str, entity_type: &str, external_id: &Vec<char>, source_url: &Vec<char>) -> (r:
    BookSourceIdentity)
    ensures
        r@ == (source_key@, entity_type@, external_id@, source_url@),
{
    BookSourceIdentity {
        source_key: owned(source_key),
        entity_type: owned(entity_type),
        external_id: string_of(external_id),
        source_url: string_of(source_url),
    }
}

/// An Open Library search document as a catalog result: see
/// `open_library_result`.
pub fn normalize_doc(doc: &OpenLibrarySearchDoc) -> (r: Option<BookCatalogResult>)
    ensures
        match r {
            Some(c) => open_library_result(*doc) == Some(c@),
            None => open_library_result(*doc) is None,
        },
{
    let title = trim_chars(&chars_of(doc.title.as_str()));
    if title.len() == 0 {
        return None;
    }
    let (isbn_10, isbn_13) = normalized_isbns(&doc.isbn);
    let work_key = chars_of(key_tail_of(doc.key.as_str()).as_str());
    let edition_key = chars_of(first_text(&doc.edition_key).as_str());
    let external_id = if edition_key.len() == 0 {
        work_key.clone()
    } else {
        edition_key.clone()
    };
    let cover_url = match doc.cover_i {
        Some(c) => {
            let mut u = chars_of("https://covers.openlibrary.org/b/id/");
            extend_chars(&mut u, &i64_to_decimal(c));
            extend_str(&mut u, "-L.jpg");
            u
        },
        None => Vec::new(),
    };
    let mut edition_url = chars_of("https://openlibrary.org/books/");
    extend_chars(&mut edition_url, &edition_key);
    let info_url = if work_key.len() > 0 {
        let mut u = chars_of("https://openlibrary.org/works/");
        extend_chars(&mut u, &work_key);
        u
    } else if edition_key.len() > 0 {
        edition_url.clone()
    } else {
        Vec::new()
    };
    let mut identities: Vec<BookSourceIdentity> = Vec::new();
    if work_key.len() > 0 {
        identities.push(identity("open_library", "WORK", &work_key, &info_url));
    }
    if edition_key.len() > 0 {
        identities.push(identity("open_library", "EDITION", &edition_key, &edition_url));
    }
    let ghost expected = open_library_result(*doc).unwrap();
    assert(identity_views(identities@) =~= expected.source_identities);
    let published_date = match doc.first_publish_year {
        Some(y) => i64_to_decimal(y),
        None => Vec::new(),
    };
    let mut badges: Vec<String> = Vec::new();
    badges.push(owned("Open Library"));
    assert(string_views(badges@) =~= seq!["Open Library"@]);
    let r = BookCatalogResult {
        source_key: owned("open_library"),
        external_id: string_of(&external_id),
        title: string_of(&title),
        subtitle: text_or_empty(&doc.subtitle),
        authors: clone_texts(&doc.author_name),
        published_date: string_of(&published_date),
        publisher: first_text(&doc.publisher),
        isbn_10,
        isbn_13,
        page_count: positive_of(doc.number_of_pages_median),
        language: first_text(&doc.language),
        format: BookFormat::Unknown,
        cover_url: string_of(&cover_url),
        description: String::new(),
        work_key: string_of(&work_key),
        edition_key: string_of(&edition_key),
        info_url: string_of(&info_url),
        preview_url: String::new(),
        already_in_library: false,
        existing_entry_id: None,
        match_basis: owned("PROVIDER_ID"),
        provider_badges: badges,
        source_identities: identities,
    };
    assert(r@ == expected);
    Some(r)
}


// ------------------------------------------------------------ Google Books

pub struct GoogleIndustryIdentifier {
    pub identifier_type: String,
    pub identifier: String,
}

pub struct GoogleImageLinks {
    pub small_thumbnail: Option<String>,
    pub thumbnail: Option<String>,
}

pub struct GoogleSaleInfo {
    pub is_ebook: bool,
    pub buy_link: Option<String>,
}

pub struct GoogleAccessInfo {
    pub viewability: Option<String>,
    pub web_reader_link: Option<String>,
}

/// The volume information that a catalog result reads.
pub struct GoogleVolumeInfo {
    pub title: Option<String>,
    pub subtitle: Option<String>,
    pub authors: Vec<String>,
    pub publisher: Option<String>,
    pub published_date: Option<String>,
    pub description: Option<String>,
    pub industry_identifiers: Vec<GoogleIndustryIdentifier>,
    pub page_count: Option<i64>,
    pub categories: Vec<String>,
    pub ratings_count: Option<i64>,
    pub language: Option<String>,
    pub image_links: Option<GoogleImageLinks>,
    pub preview_link: Option<String>,
    pub info_link: Option<String>,
}

/// A Google Books volume.
pub struct GoogleVolume {
    pub id: String,
    pub volume_info: GoogleVolumeInfo,
    pub sale_info: Option<GoogleSaleInfo>,
    pub access_info: Option<GoogleAccessInfo>,
}

pub open spec fn identifier_values(v: Seq<GoogleIndustryIdentifier>) -> Seq<Seq<char>> {
    v.map_values(|x: GoogleIndustryIdentifier| x.identifier@)
}

/// The ISBN-10 and ISBN-13 among the identifiers, normalised; where there
/// are several of a length the last one counts.
pub open spec fn last_isbns(values: Seq<Seq<char>>) -> (Seq<char>, Seq<char>)
    decreases values.len(),
{
    if values.len() == 0 {
        (seq![], seq![])
    } else {
        let (i10, i13) = last_isbns(values.drop_last());
        match spec_normalize_isbn(values.last()) {
            Some(n) => if n.len() == 10 {
                (n, i13)
            } else if n.len() == 13 {
                (i10, n)
            } else {
                (i10, i13)
            },
            None => (i10, i13),
        }
    }
}

pub fn identifiers(values: &Vec<GoogleIndustryIdentifier>) -> (r: (String, String))
    ensures
        (r.0@, r.1@) == last_isbns(identifier_values(values@)),
{
    let mut i10: Vec<char> = Vec::new();
    let mut i13: Vec<char> = Vec::new();
    let mut i: usize = 0;
    while i < values.len()
        invariant
            i <= values.len(),
            (i10@, i13@) == last_isbns(identifier_values(values@).take(i as int)),
        decreases values.len() - i,
    {
        assert(identifier_values(values@).take(i + 1).drop_last() =~= identifier_values(
            values@,
        ).take(i as int));
        assert(identifier_values(values@).take(i + 1).last() == values[i as int].identifier@);
        match normalize_isbn(values[i].identifier.as_str()) {
            Some(n) => {
                let nv = chars_of(n.as_str());
                if nv.len() == 10 {
                    i10 = nv;
                } else if nv.len() == 13 {
                    i13 = nv;
                }
            },
            None => {},
        }
        i = i + 1;
    }
    assert(identifier_values(values@).take(values.len() as int) =~= identifier_values(values@));
    (string_of(&i10), string_of(&i13))
}

/// Google's image hosts reached over plain HTTP are reached over HTTPS.
pub open spec fn secure_google_url(url: Seq<char>) -> Seq<char> {
    if starts_with(url, "http://books.google.com"@) {
        "https://books.google.com"@ + url.skip(23)
    } else if starts_with(url, "http://books.googleusercontent.com"@) {
        "https://books.googleusercontent.com"@ + url.skip(34)
    } else {
        url
    }
}

pub fn secure_google_url_of(url: &Vec<char>) -> (r: Vec<char>)
    ensures
        r@ == secure_google_url(url@),
{
    proof {
        reveal_strlit("http://books.google.com");
        reveal_strlit("http://books.googleusercontent.com");
    }
    let len = url.len();
    if starts_with_str(url, "http://books.google.com") {
        let mut r = chars_of("https://books.google.com");
        extend_chars(&mut r, &slice_of(url, 23, len));
        assert(r@ =~= secure_google_url(url@));
        r
    } else if starts_with_str(url, "http://books.googleusercontent.com") {
        let mut r = chars_of("https://books.googleusercontent.com");
        extend_chars(&mut r, &slice_of(url, 34, len));
        assert(r@ =~= secure_google_url(url@));
        r
    } else {
        url.clone()
    }
}

/// The cover of a volume: its thumbnail, else its small thumbnail, made
/// secure.
pub open spec fn google_cover(info: GoogleVolumeInfo) -> Seq<char> {
    secure_google_url(
        match info.image_links {
            Some(l) => match l.thumbnail {
                Some(t) => t@,
                None => or_empty(l.small_thumbnail),
            },
            None => seq![],
        },
    )
}

/// A volume sold as an e-book is an e-book; otherwise its format is
/// unknown.
pub open spec fn google_format(volume: GoogleVolume) -> BookFormat {
    if volume.sale_info matches Some(s) && s.is_ebook {
        BookFormat::Ebook
    } else {
        BookFormat::Unknown
    }
}

/// What a Google Books volume becomes: a result identified by the volume
/// id, with its texts, the ISBNs among its identifiers, its positive page
/// count, its secure cover, its description as plain text, and the volume's
/// page as its identity.
pub open spec fn google_result(volume: GoogleVolume) -> CatalogResultView {
    let info = volume.volume_info;
    let (isbn_10, isbn_13) = last_isbns(identifier_values(info.industry_identifiers@));
    CatalogResultView {
        source_key: "google_books"@,
        external_id: volume.id@,
        title: or_empty(info.title),
        subtitle: or_empty(info.subtitle),
        authors: string_views(info.authors@),
        published_date: or_empty(info.published_date),
        publisher: or_empty(info.publisher),
        isbn_10,
        isbn_13,
        page_count: positive(info.page_count),
        language: or_empty(info.language),
        format: google_format(volume),
        cover_url: google_cover(info),
        description: plain_text(or_empty(info.description)),
        work_key: seq![],
        edition_key: seq![],
        info_url: or_empty(info.info_link),
        preview_url: or_empty(info.preview_link),
        already_in_library: false,
        existing_entry_id: None,
        match_basis: "PROVIDER_ID"@,
        provider_badges: seq!["Google Books"@],
        source_identities: seq![("google_books"@, "EDITION"@, volume.id@, or_empty(info.info_link))],
    }
}

/// A Google Books volume as a catalog result: see `google_result`.
pub fn normalize_volume(volume: &GoogleVolume) -> (r: BookCatalogResult)
    ensures
        r@ == google_result(*volume),
{
    let info = &volume.volume_info;
    let (isbn_10, isbn_13) = identifiers(&info.industry_identifiers);
    let raw_cover = match &info.image_links {
        Some(l) => match &l.thumbnail {
            Some(t) => chars_of(t.as_str()),
            None => chars_of(text_or_empty(&l.small_thumbnail).as_str()),
        },
        None => Vec::new(),
    };
    let cover_url = secure_google_url_of(&raw_cover);
    let format = match &volume.sale_info {
        Some(s) => if s.is_ebook {
            BookFormat::Ebook
        } else {
            BookFormat::Unknown
        },
        None => BookFormat::Unknown,
    };
    let info_link = text_or_empty(&info.info_link);
    let mut identities: Vec<BookSourceIdentity> = Vec::new();
    identities.push(
        BookSourceIdentity {
            source_key: owned("google_books"),
            entity_type: owned("EDITION"),
            external_id: volume.id.clone(),
            source_url: info_link.clone(),
        },
    );
    let mut badges: Vec<String> = Vec::new();
    badges.push(owned("Google Books"));
    assert(string_views(badges@) =~= seq!["Google Books"@]);
    let description = text_or_empty(&info.description);
    let r = BookCatalogResult {
        source_key: owned("google_books"),
        external_id: volume.id.clone(),
        title: text_or_empty(&info.title),
        subtitle: text_or_empty(&info.subtitle),
        authors: clone_texts(&info.authors),
        published_date: text_or_empty(&info.published_date),
        publisher: text_or_empty(&info.publisher),
        isbn_10,
        isbn_13,
        page_count: positive_of(info.page_count),
        language: text_or_empty(&info.language),
        format,
        cover_url: string_of(&cover_url),
        description: plain_text_description(description.as_str()),
        work_key: String::new(),
        edition_key: String::new(),
        info_url: info_link,
        preview_url: text_or_empty(&info.preview_link),
        already_in_library: false,
        existing_entry_id: None,
        match_basis: owned("PROVIDER_ID"),
        provider_badges: badges,
        source_identities: identities,
    };
    assert(identity_views(r.source_identities@) =~= google_result(*volume).source_identities);
    r
}

// ------------------------------------------------------------ Hardcover

/// The format of a Hardcover edition: audio when it has a positive audio
/// length, else read from its physical format (ASCII case ignored), unknown
/// when that is empty and other when it names nothing known.
pub open spec fn hardcover_format(physical_format: Option<Seq<char>>, audio_seconds: Option<i64>) -> BookFormat {
    let l = lower_ascii(
        match physical_format {
            Some(v) => v,
            None => seq![],
        },
    );
    if audio_seconds matches Some(s) && s > 0 {
        BookFormat::Audiobook
    } else if contains(l, "hardcover"@) || contains(l, "hardback"@) {
        BookFormat::Hardcover
    } else if contains(l, "paperback"@) {
        BookFormat::Paperback
    } else if contains(l, "ebook"@) || contains(l, "kindle"@) {
        BookFormat::Ebook
    } else if l.len() == 0 {
        BookFormat::Unknown
    } else {
        BookFormat::Other
    }
}

pub fn hardcover_format_of(physical_format: Option<&str>, audio_seconds: Option<i64>) -> (r:
    BookFormat)
    ensures
        r == hardcover_format(
            match physical_format {
                Some(v) => Some(v@),
                None => None,
            },
            audio_seconds,
        ),
{
    if let Some(s) = audio_seconds {
        if s > 0 {
            return BookFormat::Audiobook;
        }
    }
    let raw = match physical_format {
        Some(v) => chars_of(v),
        None => Vec::new(),
    };
    let l = lower_ascii_chars(&raw);
    if contains_str(&l, "hardcover") || contains_str(&l, "hardback") {
        BookFormat::Hardcover
    } else if contains_str(&l, "paperback") {
        BookFormat::Paperback
    } else if contains_str(&l, "ebook") || contains_str(&l, "kindle") {
        BookFormat::Ebook
    } else if l.len() == 0 {
        BookFormat::Unknown
    } else {
        BookFormat::Other
    }
}

/// An ISBN of a Hardcover edition: normalised and of the expected length,
/// else empty.
pub open spec fn exact_isbn(value: Option<Seq<char>>, length: nat) -> Seq<char> {
    match value {
        Some(v) => match spec_normalize_isbn(v) {
            Some(n) => if n.len() == length {
                n
            } else {
                seq![]
            },
            None => seq![],
        },
        None => seq![],
    }
}

pub fn exact_isbn_of(value: Option<&str>, length: usize) -> (r: String)
    ensures
        r@ == exact_isbn(
            match value {
                Some(v) => Some(v@),
                None => None,
            },
            length as nat,
        ),
{
    match value {
        Some(v) => match normalize_isbn(v) {
            Some(n) => {
                let nv = chars_of(n.as_str());
                if nv.len() == length {
                    n
                } else {
                    String::new()
                }
            },
            None => String::new(),
        },
        None => String::new(),
    }
}

/// The whole minutes of an audio length in seconds, rounded up; nothing for
/// a length that is absent or not positive.
pub fn audio_minutes(audio_seconds: Option<i64>) -> (r: Option<i64>)
    ensures
        r == match audio_seconds {
            Some(s) => if s > 0 {
                Some(((s + 59) / 60) as i64)
            } else {
                None
            },
            None => None,
        },
{
    match audio_seconds {
        Some(s) => if s > 0 {
            Some(s / 60 + if s % 60 == 0 { 0 } else { 1 })
        } else {
            None
        },
        None => None,
    }
}

/// The Hardcover page of a book, by its slug.
pub fn hardcover_book_url(slug: Option<&str>) -> (r: String)
    ensures
        r@ == match slug {
            Some(s) => "https://hardcover.app/books/"@ + s@,
            None => seq![],
        },
{
    match slug {
        Some(s) => {
            let mut u = chars_of("https://hardcover.app/books/");
            extend_str(&mut u, s);
            string_of(&u)
        },
        None => String::new(),
    }
}


/// One error of a GraphQL reply.
pub struct GraphQlError {
    pub message: String,
}

/// A GraphQL reply: its data, and the errors it reports.
pub struct GraphQlEnvelope<T> {
    pub data: Option<T>,
    pub errors: Vec<GraphQlError>,
}

pub open spec fn error_messages(v: Seq<GraphQlError>) -> Seq<Seq<char>> {
    v.map_values(|e: GraphQlError| e.message@)
}

/// The data of a GraphQL reply. A reply that reports errors fails, even
/// with data, with the messages joined by `; `; one without data fails too.
pub fn decode_graphql_envelope<T>(envelope: GraphQlEnvelope<T>) -> (r: Result<T, MediaError>)
    ensures
        envelope.errors.len() > 0 ==> (r matches Err(e) && e.kind
            == MediaErrorKind::ProviderUnavailable && e.message@ == "Hardcover GraphQL error: "@
            + crate::text::join(error_messages(envelope.errors@), "; "@)),
        envelope.errors.len() == 0 ==> match envelope.data {
            Some(d) => r == Ok::<T, MediaError>(d),
            None => r matches Err(e) && e.kind == MediaErrorKind::ProviderUnavailable
                && e.message@ == "Hardcover returned no GraphQL data."@,
        },
{
    if envelope.errors.len() > 0 {
        let mut parts: Vec<Vec<char>> = Vec::new();
        let mut i: usize = 0;
        while i < envelope.errors.len()
            invariant
                i <= envelope.errors.len(),
                parts@.len() == i,
                forall|j: int| 0 <= j < i ==> (#[trigger] parts@[j])@ == envelope.errors@[j].message@,
            decreases envelope.errors.len() - i,
        {
            parts.push(chars_of(envelope.errors[i].message.as_str()));
            i = i + 1;
        }
        assert(crate::text::views(parts@) =~= error_messages(envelope.errors@));
        let mut m = chars_of("Hardcover GraphQL error: ");
        let sep = chars_of("; ");
        extend_chars(&mut m, &crate::text::join_chars(&parts, &sep));
        return Err(MediaError::new(MediaErrorKind::ProviderUnavailable, string_of(&m)));
    }
    match envelope.data {
        Some(d) => Ok(d),
        None => Err(
            MediaError::new(
                MediaErrorKind::ProviderUnavailable,
                owned("Hardcover returned no GraphQL data."),
            ),
        ),
    }
}

/// The least time between two Open Library requests, in milliseconds:
/// clients that name a contact may make three requests a second, others
/// one.
pub fn open_library_interval_millis(contact_configured: bool) -> (r: u64)
    ensures
        r == if contact_configured { 334u64 } else { 1000u64 },
{
    if contact_configured {
        334
    } else {
        1000
    }
}

} // verus!
