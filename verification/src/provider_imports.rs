//! The book imports that a Google Books volume and a Hardcover edition
//! become: the work's facts, its one edition, its source rows and links.
//!
//! The source rows keep the provider's record as JSON; the caller
//! serialises it and hands the text in. A provider's community rating and
//! a Hardcover book's series positions are decimal numbers, which the
//! import does not hold.
use crate::book_import::{
    series_views, source_view, source_views, BookImport, NormalizedBookSeries, SeriesView,
    SourceView,
};
use crate::book_providers::{
    clone_texts, exact_isbn, google_result, hardcover_book_url, hardcover_format, normalize_volume,
    GoogleVolume,
};
use crate::book_requests::{
    google_edition, google_import_links, google_links, hardcover_edition, hardcover_title,
    hardcover_title_of, is_google_edition, is_hardcover_edition, leading_year, link_views,
    release_year, str_view, text_or_empty,
};
use crate::books::{plain_text, plain_text_description, NormalizedBookEdition, NormalizedBookSource};
use crate::media::{MediaError, MediaErrorKind};
use crate::merge::string_views;
use crate::text::{chars_of, extend_chars, i64_to_decimal, signed_decimal, string_of};
use vstd::prelude::*;

verus! {

pub open spec fn opt_view(v: Option<String>) -> Option<Seq<char>> {
    match v {
        Some(s) => Some(s@),
        None => None,
    }
}

fn copy_text(s: &String) -> (r: String)
    ensures
        r@ == s@,
{
    string_of(&chars_of(s.as_str()))
}

fn opt_copy(v: &Option<String>) -> (r: Option<String>)
    ensures
        opt_view(r) == opt_view(*v),
{
    match v {
        Some(s) => Some(copy_text(s)),
        None => None,
    }
}

fn decimal_text(n: i64) -> (r: String)
    ensures
        r@ == signed_decimal(n as int),
{
    string_of(&i64_to_decimal(n))
}

// ------------------------------------------------------------ Google Books

/// Whether a volume is sold as an e-book, and its access viewability.
pub open spec fn google_sale_facts(volume: GoogleVolume) -> (bool, Seq<char>) {
    (
        match volume.sale_info {
            Some(s) => s.is_ebook,
            None => false,
        },
        match volume.access_info {
            Some(a) => text_or_empty(a.viewability),
            None => seq![],
        },
    )
}

/// The one source row of a Google Books import.
pub open spec fn google_source(volume: GoogleVolume, payload: Seq<char>) -> SourceView {
    (
        Some(0usize),
        "google_books"@,
        "EDITION"@,
        volume.id@,
        text_or_empty(volume.volume_info.info_link),
        payload,
    )
}

/// The import of a Google Books volume, with `payload` its JSON: the
/// catalog result's title, subtitle, description, authors and cover, the
/// year its publication date starts with, the volume's categories and
/// ratings count, its one edition, one edition source row and its links.
pub open spec fn is_google_import(volume: GoogleVolume, payload: Seq<char>, r: BookImport) -> bool {
    let c = google_result(volume);
    let (is_ebook, viewability) = google_sale_facts(volume);
    &&& r.title@ == c.title
    &&& r.subtitle@ == c.subtitle
    &&& r.description@ == c.description
    &&& string_views(r.authors@) == c.authors
    &&& r.first_publish_year == leading_year(c.published_date)
    &&& string_views(r.subjects@) == string_views(volume.volume_info.categories@)
    &&& r.canonical_cover_url@ == c.cover_url
    &&& r.community_rating_count == volume.volume_info.ratings_count
    &&& r.editions@.len() == 1
    &&& is_google_edition(c, is_ebook, viewability, r.editions@[0])
    &&& source_views(r.sources@) == seq![google_source(volume, payload)]
    &&& r.series@.len() == 0
    &&& link_views(r.links@) == google_import_links(
        c.info_url,
        c.preview_url,
        match volume.sale_info {
            Some(s) => opt_view(s.buy_link),
            None => None,
        },
        match volume.access_info {
            Some(a) => opt_view(a.web_reader_link),
            None => None,
        },
    )
}

/// The import a Google Books volume becomes; a volume without a title
/// cannot be imported.
pub fn google_volume_import(volume: &GoogleVolume, payload: String) -> (r: Result<
    BookImport,
    MediaError,
>)
    ensures
        r is Err <==> crate::text::trim(google_result(*volume).title).len() == 0,
        r matches Err(e) ==> e.kind == MediaErrorKind::ProviderUnavailable && e.message@
            == "Google Books returned a volume without a title."@,
        r matches Ok(i) ==> is_google_import(*volume, payload@, i),
{
    let candidate = normalize_volume(volume);
    let is_ebook = match &volume.sale_info {
        Some(s) => s.is_ebook,
        None => false,
    };
    let viewability = match &volume.access_info {
        Some(a) => match &a.viewability {
            Some(v) => copy_text(v),
            None => String::new(),
        },
        None => String::new(),
    };
    let edition = match google_edition(&candidate, is_ebook, &viewability) {
        Ok(e) => e,
        Err(e) => {
            proof {
                reveal_strlit("Google Books returned a volume without a title.");
            }
            return Err(e);
        },
    };
    let buy_link = match &volume.sale_info {
        Some(s) => opt_copy(&s.buy_link),
        None => None,
    };
    let web_reader_link = match &volume.access_info {
        Some(a) => opt_copy(&a.web_reader_link),
        None => None,
    };
    let links = google_links(&candidate.info_url, &candidate.preview_url, &buy_link, &web_reader_link);
    let first_publish_year = release_year(candidate.published_date.as_str());
    let source = NormalizedBookSource {
        edition_index: Some(0),
        source_key: string_of(&chars_of("google_books")),
        entity_type: string_of(&chars_of("EDITION")),
        external_id: copy_text(&volume.id),
        source_url: match &volume.volume_info.info_link {
            Some(l) => copy_text(l),
            None => String::new(),
        },
        metadata_json: payload,
    };
    let mut editions = Vec::new();
    editions.push(edition);
    let mut sources = Vec::new();
    sources.push(source);
    let import = BookImport {
        title: copy_text(&candidate.title),
        subtitle: copy_text(&candidate.subtitle),
        description: copy_text(&candidate.description),
        authors: clone_texts(&candidate.authors),
        first_publish_year,
        subjects: clone_texts(&volume.volume_info.categories),
        canonical_cover_url: copy_text(&candidate.cover_url),
        community_rating_count: volume.volume_info.ratings_count,
        editions,
        sources,
        links,
        series: Vec::new(),
    };
    assert(source_views(import.sources@) =~= seq![source_view(import.sources@[0])]);
    Ok(import)
}

// ------------------------------------------------------------ Hardcover

/// A series a Hardcover book belongs to: the series' name, when the
/// record names the series, and the book's position as shown (empty when
/// it has none).
pub struct HardcoverSeriesMember {
    pub series_name: Option<String>,
    pub position_text: String,
}

/// The series of a Hardcover book: each member that names its series, in
/// order, under the `hardcover` source.
pub open spec fn hardcover_series(members: Seq<HardcoverSeriesMember>) -> Seq<SeriesView>
    decreases members.len(),
{
    if members.len() == 0 {
        seq![]
    } else {
        let prev = hardcover_series(members.drop_last());
        match members.last().series_name {
            Some(n) => prev.push((n@, members.last().position_text@, "hardcover"@)),
            None => prev,
        }
    }
}

fn hardcover_series_of(members: &Vec<HardcoverSeriesMember>) -> (r: Vec<NormalizedBookSeries>)
    ensures
        series_views(r@) == hardcover_series(members@),
{
    let mut out: Vec<NormalizedBookSeries> = Vec::new();
    let mut i: usize = 0;
    assert(series_views(out@) =~= hardcover_series(members@.take(0)));
    while i < members.len()
        invariant
            i <= members@.len(),
            series_views(out@) == hardcover_series(members@.take(i as int)),
        decreases members@.len() - i,
    {
        assert(members@.take(i + 1).drop_last() =~= members@.take(i as int));
        let ghost before = out@;
        match &members[i].series_name {
            Some(n) => {
                out.push(
                    NormalizedBookSeries {
                        name: copy_text(n),
                        position_text: copy_text(&members[i].position_text),
                        source_key: string_of(&chars_of("hardcover")),
                    },
                );
                proof {
                    reveal_strlit("hardcover");
                }
                assert(series_views(out@) =~= series_views(before).push(
                    (n@, members@[i as int].position_text@, "hardcover"@),
                ));
            },
            None => {},
        }
        i = i + 1;
    }
    assert(members@.take(members@.len() as int) =~= members@);
    out
}

/// What a Hardcover book record holds that an import reads, with the JSON
/// of the record.
pub struct HardcoverBookFacts {
    pub id: i64,
    pub slug: Option<String>,
    pub title: Option<String>,
    pub description: Option<String>,
    pub users_count: Option<i64>,
    pub series: Vec<HardcoverSeriesMember>,
    pub payload: String,
}

/// What a Hardcover edition record holds that an import reads, with the
/// JSON of the record.
pub struct HardcoverEditionFacts {
    pub id: i64,
    pub title: Option<String>,
    pub subtitle: Option<String>,
    pub physical_format: Option<String>,
    pub audio_seconds: Option<i64>,
    pub isbn_10: Option<String>,
    pub isbn_13: Option<String>,
    pub publisher: Option<String>,
    pub release_date: Option<String>,
    pub pages: Option<i64>,
    pub users_count: Option<i64>,
    pub payload: String,
}

/// The one edition of a Hardcover import (see `is_hardcover_edition`).
pub open spec fn is_hardcover_edition_of(
    edition: HardcoverEditionFacts,
    title: Seq<char>,
    e: NormalizedBookEdition,
) -> bool {
    &&& e.title@ == title
    &&& e.subtitle@ == text_or_empty(edition.subtitle)
    &&& e.format == hardcover_format(opt_view(edition.physical_format), edition.audio_seconds)
    &&& e.isbn_10@ == exact_isbn(opt_view(edition.isbn_10), 10)
    &&& e.isbn_13@ == exact_isbn(opt_view(edition.isbn_13), 13)
    &&& e.publisher@ == text_or_empty(edition.publisher)
    &&& e.published_date@ == text_or_empty(edition.release_date)
    &&& e.language@.len() == 0
    &&& e.page_count == match edition.pages {
        Some(p) => if p > 0 {
            Some(p)
        } else {
            None
        },
        None => None,
    }
    &&& e.audio_duration_minutes == match edition.audio_seconds {
        Some(s) => if s > 0 {
            Some(((s + 59) / 60) as i64)
        } else {
            None
        },
        None => None,
    }
    &&& e.cover_url@.len() == 0
    &&& !e.is_ebook
    &&& e.access_viewability@.len() == 0
}

fn as_opt_str(v: &Option<String>) -> (r: Option<&str>)
    ensures
        str_view(r) == opt_view(*v),
{
    match v {
        Some(s) => Some(s.as_str()),
        None => None,
    }
}

/// The source rows of a Hardcover import: the edition's, then its book's
/// when it has one, both pointing at the book's page.
pub open spec fn hardcover_sources(edition: HardcoverEditionFacts, book: Option<HardcoverBookFacts>) -> Seq<
    SourceView,
> {
    let url = match book {
        Some(b) => match b.slug {
            Some(s) => "https://hardcover.app/books/"@ + s@,
            None => seq![],
        },
        None => seq![],
    };
    let first: SourceView = (
        Some(0usize),
        "hardcover"@,
        "EDITION"@,
        signed_decimal(edition.id as int),
        url,
        edition.payload@,
    );
    match book {
        Some(b) => {
            let second: SourceView = (
                None,
                "hardcover"@,
                "BOOK"@,
                signed_decimal(b.id as int),
                url,
                b.payload@,
            );
            seq![first, second]
        },
        None => seq![first],
    }
}

/// The import of a Hardcover edition and its book: the title the book
/// gives (else the edition's), the edition's subtitle, the book's
/// description as plain text, the year the release date starts with, the
/// ratings count of the book (else the edition's), its one edition and its
/// source rows; no authors, subjects, cover or links.
pub open spec fn is_hardcover_import(
    edition: HardcoverEditionFacts,
    book: Option<HardcoverBookFacts>,
    r: BookImport,
) -> bool {
    let title = hardcover_title_of(
        match book {
            Some(b) => opt_view(b.title),
            None => None,
        },
        opt_view(edition.title),
    );
    &&& r.title@ == title
    &&& r.subtitle@ == text_or_empty(edition.subtitle)
    &&& r.description@ == plain_text(
        match book {
            Some(b) => text_or_empty(b.description),
            None => seq![],
        },
    )
    &&& r.authors@.len() == 0
    &&& r.first_publish_year == match edition.release_date {
        Some(d) => leading_year(d@),
        None => None,
    }
    &&& r.subjects@.len() == 0
    &&& r.canonical_cover_url@.len() == 0
    &&& r.community_rating_count == match book {
        Some(b) => match b.users_count {
            Some(n) => Some(n),
            None => edition.users_count,
        },
        None => edition.users_count,
    }
    &&& r.editions@.len() == 1
    &&& is_hardcover_edition_of(edition, title, r.editions@[0])
    &&& r.links@.len() == 0
    &&& source_views(r.sources@) == hardcover_sources(edition, book)
    &&& series_views(r.series@) == match book {
        Some(b) => hardcover_series(b.series@),
        None => seq![],
    }
}

/// The import a Hardcover edition and its book become.
pub fn hardcover_import(edition: HardcoverEditionFacts, book: Option<HardcoverBookFacts>) -> (r:
    BookImport)
    ensures
        is_hardcover_import(edition, book, r),
{
    let title = hardcover_title(
        &match &book {
            Some(b) => opt_copy(&b.title),
            None => None,
        },
        &edition.title,
    );
    let e = hardcover_edition(
        &title,
        &edition.subtitle,
        as_opt_str(&edition.physical_format),
        edition.audio_seconds,
        as_opt_str(&edition.isbn_10),
        as_opt_str(&edition.isbn_13),
        &edition.publisher,
        &edition.release_date,
        edition.pages,
    );
    let url = match &book {
        Some(b) => hardcover_book_url(as_opt_str(&b.slug)),
        None => String::new(),
    };
    let mut sources: Vec<NormalizedBookSource> = Vec::new();
    sources.push(
        NormalizedBookSource {
            edition_index: Some(0),
            source_key: string_of(&chars_of("hardcover")),
            entity_type: string_of(&chars_of("EDITION")),
            external_id: decimal_text(edition.id),
            source_url: copy_text(&url),
            metadata_json: copy_text(&edition.payload),
        },
    );
    match &book {
        Some(b) => {
            sources.push(
                NormalizedBookSource {
                    edition_index: None,
                    source_key: string_of(&chars_of("hardcover")),
                    entity_type: string_of(&chars_of("BOOK")),
                    external_id: decimal_text(b.id),
                    source_url: copy_text(&url),
                    metadata_json: copy_text(&b.payload),
                },
            );
        },
        None => {},
    }
    let description = match &book {
        Some(b) => match &b.description {
            Some(d) => plain_text_description(d.as_str()),
            None => plain_text_description(""),
        },
        None => plain_text_description(""),
    };
    let community_rating_count = match &book {
        Some(b) => match b.users_count {
            Some(n) => Some(n),
            None => edition.users_count,
        },
        None => edition.users_count,
    };
    let first_publish_year = match &edition.release_date {
        Some(d) => release_year(d.as_str()),
        None => None,
    };
    let series = match &book {
        Some(b) => hardcover_series_of(&b.series),
        None => Vec::new(),
    };
    let mut editions = Vec::new();
    editions.push(e);
    let import = BookImport {
        title,
        subtitle: match &edition.subtitle {
            Some(s) => copy_text(s),
            None => String::new(),
        },
        description,
        authors: Vec::new(),
        first_publish_year,
        subjects: Vec::new(),
        canonical_cover_url: String::new(),
        community_rating_count,
        editions,
        sources,
        links: Vec::new(),
        series,
    };
    proof {
        reveal_strlit("");
        assert(""@ =~= Seq::<char>::empty());
        assert(source_views(import.sources@) =~= hardcover_sources(edition, book));
        assert(series_views(import.series@) == match book {
            Some(b) => hardcover_series(b.series@),
            None => seq![],
        });
    }
    import
}

} // verus!
