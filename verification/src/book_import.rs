//! A book import as the library stores it, and the merging of a second
//! provider's import into a first one. The import holds no community
//! rating, which is a decimal number; a series position is held as the
//! text it is shown as, from which the database reads its sort value.
use crate::books::{NormalizedBookEdition, NormalizedBookLink, NormalizedBookSource};
use crate::merge::{append_unique, appended_unique, fill_string, filled, string_views};
use crate::text::{chars_eq, chars_of, extend_str, trim};
use vstd::prelude::*;

verus! {

/// A series a book belongs to, as a provider names it: the series name,
/// the book's position as text (empty when unknown), and the provider.
pub struct NormalizedBookSeries {
    pub name: String,
    pub position_text: String,
    pub source_key: String,
}

/// Name, position text and source key of a series.
pub type SeriesView = (Seq<char>, Seq<char>, Seq<char>);

pub open spec fn series_view(s: NormalizedBookSeries) -> SeriesView {
    (s.name@, s.position_text@, s.source_key@)
}

pub open spec fn series_views(v: Seq<NormalizedBookSeries>) -> Seq<SeriesView> {
    v.map_values(|s: NormalizedBookSeries| series_view(s))
}

/// A book import: the work's facts, the number of community ratings, its
/// editions, its source rows, its links and its series.
pub struct BookImport {
    pub title: String,
    pub subtitle: String,
    pub description: String,
    pub authors: Vec<String>,
    pub first_publish_year: Option<i64>,
    pub subjects: Vec<String>,
    pub canonical_cover_url: String,
    pub community_rating_count: Option<i64>,
    pub editions: Vec<NormalizedBookEdition>,
    pub sources: Vec<NormalizedBookSource>,
    pub links: Vec<NormalizedBookLink>,
    pub series: Vec<NormalizedBookSeries>,
}

/// Edition index, source key, entity type, external id, source URL and
/// payload of a source row.
pub type SourceView = (Option<usize>, Seq<char>, Seq<char>, Seq<char>, Seq<char>, Seq<char>);

pub open spec fn source_view(s: NormalizedBookSource) -> SourceView {
    (s.edition_index, s.source_key@, s.entity_type@, s.external_id@, s.source_url@, s.metadata_json@)
}

pub open spec fn source_views(v: Seq<NormalizedBookSource>) -> Seq<SourceView> {
    v.map_values(|s: NormalizedBookSource| source_view(s))
}

/// Edition index, source key, link type, URL and region of a link.
pub type LinkView = (Option<usize>, Seq<char>, Seq<char>, Seq<char>, Seq<char>);

pub open spec fn link_view(l: NormalizedBookLink) -> LinkView {
    (l.edition_index, l.source_key@, l.link_type@, l.url@, l.region_code@)
}

pub open spec fn link_views(v: Seq<NormalizedBookLink>) -> Seq<LinkView> {
    v.map_values(|l: NormalizedBookLink| link_view(l))
}

// ------------------------------------------------------------ merging

/// An edition already kept that shares a non-empty ISBN-13 or ISBN-10 with
/// the new one.
pub open spec fn same_edition(existing: NormalizedBookEdition, e: NormalizedBookEdition) -> bool {
    (e.isbn_13@.len() > 0 && existing.isbn_13@ == e.isbn_13@) || (e.isbn_10@.len() > 0
        && existing.isbn_10@ == e.isbn_10@)
}

pub open spec fn has_edition(v: Seq<NormalizedBookEdition>, e: NormalizedBookEdition) -> bool {
    exists|k: int| 0 <= k < v.len() && same_edition(#[trigger] v[k], e)
}

/// The editions with each new one appended unless it repeats the ISBN of
/// one kept before it.
pub open spec fn merged_editions(base: Seq<NormalizedBookEdition>, extra: Seq<NormalizedBookEdition>) -> Seq<
    NormalizedBookEdition,
>
    decreases extra.len(),
{
    if extra.len() == 0 {
        base
    } else {
        let r = merged_editions(base, extra.drop_last());
        if has_edition(r, extra.last()) {
            r
        } else {
            r.push(extra.last())
        }
    }
}

/// The key a source row is told apart by: provider, entity type and
/// external id, joined by colons.
pub open spec fn source_text_key(s: NormalizedBookSource) -> Seq<char> {
    s.source_key@ + ":"@ + s.entity_type@ + ":"@ + s.external_id@
}

pub open spec fn has_source_key(v: Seq<NormalizedBookSource>, key: Seq<char>) -> bool {
    exists|k: int| 0 <= k < v.len() && source_text_key(#[trigger] v[k]) == key
}

/// The source rows with each new one appended unless a kept row has its
/// key.
pub open spec fn merged_sources(base: Seq<NormalizedBookSource>, extra: Seq<NormalizedBookSource>) -> Seq<
    NormalizedBookSource,
>
    decreases extra.len(),
{
    if extra.len() == 0 {
        base
    } else {
        let r = merged_sources(base, extra.drop_last());
        if has_source_key(r, source_text_key(extra.last())) {
            r
        } else {
            r.push(extra.last())
        }
    }
}

/// The key a link is told apart by: its type and URL, joined by a colon.
pub open spec fn link_text_key(l: NormalizedBookLink) -> Seq<char> {
    l.link_type@ + ":"@ + l.url@
}

pub open spec fn has_link_key(v: Seq<NormalizedBookLink>, key: Seq<char>) -> bool {
    exists|k: int| 0 <= k < v.len() && link_text_key(#[trigger] v[k]) == key
}

/// The links with each new one appended unless a kept link has its key.
pub open spec fn merged_links(base: Seq<NormalizedBookLink>, extra: Seq<NormalizedBookLink>) -> Seq<
    NormalizedBookLink,
>
    decreases extra.len(),
{
    if extra.len() == 0 {
        base
    } else {
        let r = merged_links(base, extra.drop_last());
        if has_link_key(r, link_text_key(extra.last())) {
            r
        } else {
            r.push(extra.last())
        }
    }
}

fn text_eq(a: &String, b: &String) -> (r: bool)
    ensures
        r == (a@ == b@),
{
    chars_eq(&chars_of(a.as_str()), &chars_of(b.as_str()))
}

fn edition_kept(v: &Vec<NormalizedBookEdition>, e: &NormalizedBookEdition) -> (r: bool)
    ensures
        r == has_edition(v@, *e),
{
    let has_13 = chars_of(e.isbn_13.as_str()).len() > 0;
    let has_10 = chars_of(e.isbn_10.as_str()).len() > 0;
    let mut i: usize = 0;
    while i < v.len()
        invariant
            i <= v.len(),
            has_13 == (e.isbn_13@.len() > 0),
            has_10 == (e.isbn_10@.len() > 0),
            forall|k: int| 0 <= k < i ==> !same_edition(#[trigger] v@[k], *e),
        decreases v.len() - i,
    {
        if (has_13 && text_eq(&v[i].isbn_13, &e.isbn_13)) || (has_10 && text_eq(
            &v[i].isbn_10,
            &e.isbn_10,
        )) {
            assert(same_edition(v@[i as int], *e));
            return true;
        }
        i = i + 1;
    }
    false
}

fn source_key_of(s: &NormalizedBookSource) -> (r: Vec<char>)
    ensures
        r@ == source_text_key(*s),
{
    let mut k = chars_of(s.source_key.as_str());
    extend_str(&mut k, ":");
    extend_str(&mut k, s.entity_type.as_str());
    extend_str(&mut k, ":");
    extend_str(&mut k, s.external_id.as_str());
    k
}

fn source_kept(v: &Vec<NormalizedBookSource>, key: &Vec<char>) -> (r: bool)
    ensures
        r == has_source_key(v@, key@),
{
    let mut i: usize = 0;
    while i < v.len()
        invariant
            i <= v.len(),
            forall|k: int| 0 <= k < i ==> source_text_key(#[trigger] v@[k]) != key@,
        decreases v.len() - i,
    {
        if chars_eq(&source_key_of(&v[i]), key) {
            return true;
        }
        i = i + 1;
    }
    false
}

fn link_key_of(l: &NormalizedBookLink) -> (r: Vec<char>)
    ensures
        r@ == link_text_key(*l),
{
    let mut k = chars_of(l.link_type.as_str());
    extend_str(&mut k, ":");
    extend_str(&mut k, l.url.as_str());
    k
}

fn link_kept(v: &Vec<NormalizedBookLink>, key: &Vec<char>) -> (r: bool)
    ensures
        r == has_link_key(v@, key@),
{
    let mut i: usize = 0;
    while i < v.len()
        invariant
            i <= v.len(),
            forall|k: int| 0 <= k < i ==> link_text_key(#[trigger] v@[k]) != key@,
        decreases v.len() - i,
    {
        if chars_eq(&link_key_of(&v[i]), key) {
            return true;
        }
        i = i + 1;
    }
    false
}

fn merge_editions(base: &mut Vec<NormalizedBookEdition>, extra: Vec<NormalizedBookEdition>)
    ensures
        final(base)@ == merged_editions(old(base)@, extra@),
{
    let ghost all = extra@;
    let ghost start = base@;
    let mut rest = extra;
    let n = rest.len();
    let mut i: usize = 0;
    while rest.len() > 0
        invariant
            n == all.len(),
            i + rest@.len() == n,
            rest@ == all.skip(i as int),
            base@ == merged_editions(start, all.take(i as int)),
        decreases rest.len(),
    {
        let e = rest.remove(0);
        assert(e == all[i as int]);
        assert(all.take(i + 1).drop_last() =~= all.take(i as int));
        if !edition_kept(base, &e) {
            base.push(e);
        }
        i = i + 1;
        assert(rest@ =~= all.skip(i as int));
    }
    assert(all.take(n as int) =~= all);
}

fn merge_sources(base: &mut Vec<NormalizedBookSource>, extra: Vec<NormalizedBookSource>)
    ensures
        final(base)@ == merged_sources(old(base)@, extra@),
{
    let ghost all = extra@;
    let ghost start = base@;
    let mut rest = extra;
    let n = rest.len();
    let mut i: usize = 0;
    while rest.len() > 0
        invariant
            n == all.len(),
            i + rest@.len() == n,
            rest@ == all.skip(i as int),
            base@ == merged_sources(start, all.take(i as int)),
        decreases rest.len(),
    {
        let s = rest.remove(0);
        assert(s == all[i as int]);
        assert(all.take(i + 1).drop_last() =~= all.take(i as int));
        let key = source_key_of(&s);
        if !source_kept(base, &key) {
            base.push(s);
        }
        i = i + 1;
        assert(rest@ =~= all.skip(i as int));
    }
    assert(all.take(n as int) =~= all);
}

fn merge_links(base: &mut Vec<NormalizedBookLink>, extra: Vec<NormalizedBookLink>)
    ensures
        final(base)@ == merged_links(old(base)@, extra@),
{
    let ghost all = extra@;
    let ghost start = base@;
    let mut rest = extra;
    let n = rest.len();
    let mut i: usize = 0;
    while rest.len() > 0
        invariant
            n == all.len(),
            i + rest@.len() == n,
            rest@ == all.skip(i as int),
            base@ == merged_links(start, all.take(i as int)),
        decreases rest.len(),
    {
        let l = rest.remove(0);
        assert(l == all[i as int]);
        assert(all.take(i + 1).drop_last() =~= all.take(i as int));
        let key = link_key_of(&l);
        if !link_kept(base, &key) {
            base.push(l);
        }
        i = i + 1;
        assert(rest@ =~= all.skip(i as int));
    }
    assert(all.take(n as int) =~= all);
}

/// The import `after` is `base` with `enrichment` merged in: blank texts,
/// a missing year and a missing rating count filled in; the authors and
/// subjects it lacks (ignoring case), and the editions, source rows and
/// links new to it, added; the title kept.
pub open spec fn merged_into(base: BookImport, enrichment: BookImport, after: BookImport) -> bool {
    &&& after.title@ == base.title@
    &&& after.subtitle@ == filled(base.subtitle@, enrichment.subtitle@)
    &&& after.description@ == filled(base.description@, enrichment.description@)
    &&& after.canonical_cover_url@ == filled(base.canonical_cover_url@, enrichment.canonical_cover_url@)
    &&& after.first_publish_year == match base.first_publish_year {
        Some(y) => Some(y),
        None => enrichment.first_publish_year,
    }
    &&& after.community_rating_count == match base.community_rating_count {
        Some(n) => Some(n),
        None => enrichment.community_rating_count,
    }
    &&& string_views(after.authors@) == appended_unique(
        string_views(base.authors@),
        string_views(enrichment.authors@),
    )
    &&& string_views(after.subjects@) == appended_unique(
        string_views(base.subjects@),
        string_views(enrichment.subjects@),
    )
    &&& after.editions@ == merged_editions(base.editions@, enrichment.editions@)
    &&& after.sources@ == merged_sources(base.sources@, enrichment.sources@)
    &&& after.links@ == merged_links(base.links@, enrichment.links@)
    &&& series_views(after.series@) == series_views(base.series@) + series_views(enrichment.series@)
}

/// Merges the metadata of a second provider's import into a first one.
pub struct BookMetadataMerger;

impl BookMetadataMerger {
    /// Merges `enrichment` into `base` (see `merged_into`). Nothing
    /// populated is overwritten: the title, non-blank texts and present
    /// year and rating count stay, and the old lists stay as prefixes of
    /// the new ones.
    pub fn merge(base: &mut BookImport, enrichment: BookImport)
        ensures
            merged_into(*old(base), enrichment, *final(base)),
            final(base).title@ == old(base).title@,
            trim(old(base).subtitle@).len() > 0 ==> final(base).subtitle@ == old(base).subtitle@,
            trim(old(base).description@).len() > 0 ==> final(base).description@
                == old(base).description@,
            trim(old(base).canonical_cover_url@).len() > 0 ==> final(base).canonical_cover_url@
                == old(base).canonical_cover_url@,
            old(base).first_publish_year is Some ==> final(base).first_publish_year == old(
                base,
            ).first_publish_year,
            old(base).community_rating_count is Some ==> final(base).community_rating_count == old(
                base,
            ).community_rating_count,
            string_views(final(base).authors@).take(old(base).authors@.len() as int)
                == string_views(old(base).authors@),
            string_views(final(base).subjects@).take(old(base).subjects@.len() as int)
                == string_views(old(base).subjects@),
            final(base).editions@.take(old(base).editions@.len() as int) == old(base).editions@,
            final(base).sources@.take(old(base).sources@.len() as int) == old(base).sources@,
            final(base).links@.take(old(base).links@.len() as int) == old(base).links@,
            series_views(final(base).series@).take(old(base).series@.len() as int) == series_views(
                old(base).series@,
            ),
    {
        let ghost before = *base;
        let ghost extra = enrichment;
        let BookImport {
            title: _,
            subtitle,
            description,
            authors,
            first_publish_year,
            subjects,
            canonical_cover_url,
            community_rating_count,
            editions,
            sources,
            links,
            series,
        } = enrichment;
        fill_string(&mut base.subtitle, subtitle);
        fill_string(&mut base.description, description);
        fill_string(&mut base.canonical_cover_url, canonical_cover_url);
        if base.first_publish_year.is_none() {
            base.first_publish_year = first_publish_year;
        }
        if base.community_rating_count.is_none() {
            base.community_rating_count = community_rating_count;
        }
        append_unique(&mut base.authors, authors);
        append_unique(&mut base.subjects, subjects);
        merge_editions(&mut base.editions, editions);
        merge_sources(&mut base.sources, sources);
        merge_links(&mut base.links, links);
        let ghost base_series = base.series@;
        let mut series = series;
        let ghost extra_series = series@;
        assert(extra_series == extra.series@);
        base.series.append(&mut series);
        assert(base.series@ == base_series + extra_series);
        assert(series_views(base.series@) =~= series_views(base_series) + series_views(extra_series));
        assert(base_series == before.series@);
        proof {
            merging_keeps_populated_metadata(before, extra, *base);
        }
    }
}

// ------------------------------------------------------------ what merging keeps

proof fn lemma_appended_unique_extends(target: Seq<Seq<char>>, candidates: Seq<Seq<char>>)
    ensures
        appended_unique(target, candidates).len() >= target.len(),
        appended_unique(target, candidates).take(target.len() as int) == target,
    decreases candidates.len(),
{
    if candidates.len() > 0 {
        lemma_appended_unique_extends(target, candidates.drop_last());
        let r = appended_unique(target, candidates.drop_last());
        assert(r.push(candidates.last()).take(target.len() as int) =~= r.take(target.len() as int));
    }
}

proof fn lemma_merged_editions_extend(base: Seq<NormalizedBookEdition>, extra: Seq<NormalizedBookEdition>)
    ensures
        merged_editions(base, extra).len() >= base.len(),
        merged_editions(base, extra).take(base.len() as int) == base,
    decreases extra.len(),
{
    if extra.len() > 0 {
        lemma_merged_editions_extend(base, extra.drop_last());
        let r = merged_editions(base, extra.drop_last());
        assert(r.push(extra.last()).take(base.len() as int) =~= r.take(base.len() as int));
    }
}

proof fn lemma_merged_sources_extend(base: Seq<NormalizedBookSource>, extra: Seq<NormalizedBookSource>)
    ensures
        merged_sources(base, extra).len() >= base.len(),
        merged_sources(base, extra).take(base.len() as int) == base,
    decreases extra.len(),
{
    if extra.len() > 0 {
        lemma_merged_sources_extend(base, extra.drop_last());
        let r = merged_sources(base, extra.drop_last());
        assert(r.push(extra.last()).take(base.len() as int) =~= r.take(base.len() as int));
    }
}

proof fn lemma_merged_links_extend(base: Seq<NormalizedBookLink>, extra: Seq<NormalizedBookLink>)
    ensures
        merged_links(base, extra).len() >= base.len(),
        merged_links(base, extra).take(base.len() as int) == base,
    decreases extra.len(),
{
    if extra.len() > 0 {
        lemma_merged_links_extend(base, extra.drop_last());
        let r = merged_links(base, extra.drop_last());
        assert(r.push(extra.last()).take(base.len() as int) =~= r.take(base.len() as int));
    }
}

/// Merging never overwrites populated metadata: the base's non-blank
/// texts, its year and rating count when present, and its title stay; its
/// authors, subjects, editions, source rows and links all stay, in order,
/// ahead of anything added.
pub proof fn merging_keeps_populated_metadata(base: BookImport, enrichment: BookImport, after: BookImport)
    requires
        merged_into(base, enrichment, after),
    ensures
        after.title@ == base.title@,
        trim(base.subtitle@).len() > 0 ==> after.subtitle@ == base.subtitle@,
        trim(base.description@).len() > 0 ==> after.description@ == base.description@,
        trim(base.canonical_cover_url@).len() > 0 ==> after.canonical_cover_url@
            == base.canonical_cover_url@,
        base.first_publish_year is Some ==> after.first_publish_year == base.first_publish_year,
        base.community_rating_count is Some ==> after.community_rating_count
            == base.community_rating_count,
        string_views(after.authors@).take(base.authors@.len() as int) == string_views(base.authors@),
        string_views(after.subjects@).take(base.subjects@.len() as int) == string_views(
            base.subjects@,
        ),
        after.editions@.take(base.editions@.len() as int) == base.editions@,
        after.sources@.take(base.sources@.len() as int) == base.sources@,
        after.links@.take(base.links@.len() as int) == base.links@,
        series_views(after.series@).take(base.series@.len() as int) == series_views(base.series@),
{
    assert((series_views(base.series@) + series_views(enrichment.series@)).take(
        base.series@.len() as int,
    ) =~= series_views(base.series@));
    lemma_appended_unique_extends(string_views(base.authors@), string_views(enrichment.authors@));
    lemma_appended_unique_extends(string_views(base.subjects@), string_views(enrichment.subjects@));
    lemma_merged_editions_extend(base.editions@, enrichment.editions@);
    lemma_merged_sources_extend(base.sources@, enrichment.sources@);
    lemma_merged_links_extend(base.links@, enrichment.links@);
}

} // verus!
