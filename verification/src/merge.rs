//! Merging book catalog results that several providers returned for the same
//! book.
use crate::books::{catalog_key, BookCatalogResult, BookFormat, BookSourceIdentity};
use crate::text::{
    chars_eq, chars_of, lower_ascii, lower_ascii_chars, trim, trim_chars, views,
};
use vstd::prelude::*;

verus! {

/// The values of a catalog result that merging reads and writes.
pub struct CatalogResultView {
    pub source_key: Seq<char>,
    pub external_id: Seq<char>,
    pub title: Seq<char>,
    pub subtitle: Seq<char>,
    pub authors: Seq<Seq<char>>,
    pub published_date: Seq<char>,
    pub publisher: Seq<char>,
    pub isbn_10: Seq<char>,
    pub isbn_13: Seq<char>,
    pub page_count: Option<i64>,
    pub language: Seq<char>,
    pub format: BookFormat,
    pub cover_url: Seq<char>,
    pub description: Seq<char>,
    pub work_key: Seq<char>,
    pub edition_key: Seq<char>,
    pub info_url: Seq<char>,
    pub preview_url: Seq<char>,
    pub already_in_library: bool,
    pub existing_entry_id: Option<i64>,
    pub match_basis: Seq<char>,
    pub provider_badges: Seq<Seq<char>>,
    pub source_identities: Seq<IdentityView>,
}

/// Source key, entity type, external id and source URL of an identity.
pub type IdentityView = (Seq<char>, Seq<char>, Seq<char>, Seq<char>);

pub open spec fn string_views(v: Seq<String>) -> Seq<Seq<char>> {
    v.map_values(|s: String| s@)
}

impl View for BookSourceIdentity {
    type V = IdentityView;

    open spec fn view(&self) -> IdentityView {
        (self.source_key@, self.entity_type@, self.external_id@, self.source_url@)
    }
}

pub open spec fn identity_views(v: Seq<BookSourceIdentity>) -> Seq<IdentityView> {
    v.map_values(|x: BookSourceIdentity| x@)
}

impl View for BookCatalogResult {
    type V = CatalogResultView;

    open spec fn view(&self) -> CatalogResultView {
        CatalogResultView {
            source_key: self.source_key@,
            external_id: self.external_id@,
            title: self.title@,
            subtitle: self.subtitle@,
            authors: string_views(self.authors@),
            published_date: self.published_date@,
            publisher: self.publisher@,
            isbn_10: self.isbn_10@,
            isbn_13: self.isbn_13@,
            page_count: self.page_count,
            language: self.language@,
            format: self.format,
            cover_url: self.cover_url@,
            description: self.description@,
            work_key: self.work_key@,
            edition_key: self.edition_key@,
            info_url: self.info_url@,
            preview_url: self.preview_url@,
            already_in_library: self.already_in_library,
            existing_entry_id: self.existing_entry_id,
            match_basis: self.match_basis@,
            provider_badges: string_views(self.provider_badges@),
            source_identities: identity_views(self.source_identities@),
        }
    }
}

pub open spec fn result_views(v: Seq<BookCatalogResult>) -> Seq<CatalogResultView> {
    v.map_values(|x: BookCatalogResult| x@)
}

pub open spec fn view_key(r: CatalogResultView) -> Seq<char> {
    catalog_key(r.isbn_13, r.isbn_10, r.work_key, r.source_key, r.external_id)
}

/// A blank target takes a non-blank candidate.
pub open spec fn filled(target: Seq<char>, candidate: Seq<char>) -> Seq<char> {
    if trim(target).len() == 0 && trim(candidate).len() > 0 {
        candidate
    } else {
        target
    }
}

pub open spec fn eq_ignore_ascii_case(a: Seq<char>, b: Seq<char>) -> bool {
    lower_ascii(a) == lower_ascii(b)
}

pub open spec fn has_case_insensitive(v: Seq<Seq<char>>, c: Seq<char>) -> bool {
    exists|k: int| 0 <= k < v.len() && eq_ignore_ascii_case(#[trigger] v[k], c)
}

/// `target` followed by each non-blank candidate that it does not hold yet,
/// letters compared without regard to ASCII case.
pub open spec fn appended_unique(target: Seq<Seq<char>>, candidates: Seq<Seq<char>>) -> Seq<
    Seq<char>,
>
    decreases candidates.len(),
{
    if candidates.len() == 0 {
        target
    } else {
        let r = appended_unique(target, candidates.drop_last());
        let c = candidates.last();
        if trim(c).len() > 0 && !has_case_insensitive(r, c) {
            r.push(c)
        } else {
            r
        }
    }
}

pub open spec fn same_identity(a: IdentityView, b: IdentityView) -> bool {
    a.0 == b.0 && a.1 == b.1 && a.2 == b.2
}

pub open spec fn has_identity(v: Seq<IdentityView>, c: IdentityView) -> bool {
    exists|k: int| 0 <= k < v.len() && same_identity(#[trigger] v[k], c)
}

/// `target` followed by each candidate identity whose source key, entity type
/// and external id it does not hold yet.
pub open spec fn appended_identities(target: Seq<IdentityView>, candidates: Seq<IdentityView>) -> Seq<
    IdentityView,
>
    decreases candidates.len(),
{
    if candidates.len() == 0 {
        target
    } else {
        let r = appended_identities(target, candidates.drop_last());
        let c = candidates.last();
        if !has_identity(r, c) {
            r.push(c)
        } else {
            r
        }
    }
}

/// Two results for one book combined. A Google Books result replaces one from
/// another provider and keeps its identities and badges; otherwise the first
/// result keeps its values and takes the candidate's where its own are blank.
pub open spec fn merged(base: CatalogResultView, candidate: CatalogResultView) -> CatalogResultView {
    if base.source_key != "google_books"@ && candidate.source_key == "google_books"@ {
        CatalogResultView {
            source_identities: candidate.source_identities + base.source_identities,
            provider_badges: appended_unique(candidate.provider_badges, base.provider_badges),
            ..candidate
        }
    } else {
        CatalogResultView {
            subtitle: filled(base.subtitle, candidate.subtitle),
            description: filled(base.description, candidate.description),
            publisher: filled(base.publisher, candidate.publisher),
            published_date: filled(base.published_date, candidate.published_date),
            isbn_10: filled(base.isbn_10, candidate.isbn_10),
            isbn_13: filled(base.isbn_13, candidate.isbn_13),
            cover_url: filled(base.cover_url, candidate.cover_url),
            work_key: filled(base.work_key, candidate.work_key),
            edition_key: filled(base.edition_key, candidate.edition_key),
            info_url: filled(base.info_url, candidate.info_url),
            preview_url: filled(base.preview_url, candidate.preview_url),
            page_count: if base.page_count is None {
                candidate.page_count
            } else {
                base.page_count
            },
            authors: appended_unique(base.authors, candidate.authors),
            provider_badges: appended_unique(base.provider_badges, candidate.provider_badges),
            source_identities: appended_identities(base.source_identities, candidate.source_identities),
            ..base
        }
    }
}

pub open spec fn index_of_key(keys: Seq<Seq<char>>, k: Seq<char>) -> Option<int> {
    if exists|i: int| 0 <= i < keys.len() && keys[i] == k {
        Some(choose|i: int| 0 <= i < keys.len() && keys[i] == k)
    } else {
        None
    }
}

/// The results merged so far and, for each, the key it was first seen
/// under. Each result joins the earlier one first seen under its key, or is
/// appended.
pub open spec fn merge_all(results: Seq<CatalogResultView>) -> (Seq<CatalogResultView>, Seq<
    Seq<char>,
>)
    decreases results.len(),
{
    if results.len() == 0 {
        (seq![], seq![])
    } else {
        let (m, keys) = merge_all(results.drop_last());
        let c = results.last();
        match index_of_key(keys, view_key(c)) {
            Some(i) => (m.update(i, merged(m[i], c)), keys),
            None => (m.push(c), keys.push(view_key(c))),
        }
    }
}

pub open spec fn distinct(keys: Seq<Seq<char>>) -> bool {
    forall|i: int, j: int| 0 <= i < keys.len() && 0 <= j < keys.len() && i != j ==> keys[i] != keys[j]
}


pub proof fn lemma_merge_all(results: Seq<CatalogResultView>)
    ensures
        merge_all(results).0.len() == merge_all(results).1.len(),
        merge_all(results).0.len() <= results.len(),
        distinct(merge_all(results).1),
    decreases results.len(),
{
    if results.len() > 0 {
        lemma_merge_all(results.drop_last());
        let (m, keys) = merge_all(results.drop_last());
        let c = results.last();
        if index_of_key(keys, view_key(c)) is None {
            assert forall|i: int, j: int|
                0 <= i < keys.len() + 1 && 0 <= j < keys.len() + 1 && i != j implies #[trigger] keys.push(
                view_key(c),
            )[i] != #[trigger] keys.push(view_key(c))[j] by {
                if i < keys.len() && j < keys.len() {
                } else if i == keys.len() {
                    assert(keys.push(view_key(c))[j] == keys[j]);
                } else {
                    assert(keys.push(view_key(c))[i] == keys[i]);
                }
            }
        }
    }
}

/// Without repeated keys, a key's position is the one `index_of_key` names.
pub proof fn lemma_index_of_distinct(keys: Seq<Seq<char>>, k: Seq<char>, i: int)
    requires
        distinct(keys),
        0 <= i < keys.len(),
        keys[i] == k,
    ensures
        index_of_key(keys, k) == Some(i),
{
}

/// Merging yields at most one result per key: the keys the results were
/// first seen under are distinct, and there are no more results than inputs.
pub proof fn merged_results_have_distinct_keys(results: Seq<CatalogResultView>)
    ensures
        distinct(merge_all(results).1),
        merge_all(results).0.len() == merge_all(results).1.len() <= results.len(),
{
    lemma_merge_all(results);
}

/// Some input with key `k` comes from Google Books.
pub open spec fn key_has_google(results: Seq<CatalogResultView>, k: Seq<char>) -> bool {
    exists|j: int|
        0 <= j < results.len() && view_key(#[trigger] results[j]) == k && results[j].source_key
            == "google_books"@
}

/// The key an input was merged under is among the keys, in a merge of
/// the inputs up to it and of all of them.
pub proof fn lemma_merge_all_covers(results: Seq<CatalogResultView>)
    ensures
        forall|j: int|
            0 <= j < results.len() ==> exists|i: int|
                0 <= i < merge_all(results).1.len() && merge_all(results).1[i] == view_key(
                    #[trigger] results[j],
                ),
    decreases results.len(),
{
    if results.len() > 0 {
        let prev = results.drop_last();
        lemma_merge_all_covers(prev);
        let (m, keys) = merge_all(prev);
        let c = results.last();
        let n = results.len() - 1;
        let keys2 = merge_all(results).1;
        assert forall|j: int| 0 <= j < results.len() implies exists|i: int|
            0 <= i < keys2.len() && keys2[i] == view_key(#[trigger] results[j]) by {
            if j == n {
                match index_of_key(keys, view_key(c)) {
                    Some(k) => {
                        assert(keys2[k] == view_key(results[j]));
                    },
                    None => {
                        assert(keys2[keys.len() as int] == view_key(results[j]));
                    },
                }
            } else {
                assert(results[j] == prev[j]);
                let i = choose|i: int| 0 <= i < keys.len() && keys[i] == view_key(prev[j]);
                assert(keys2[i] == keys[i]);
            }
        }
    }
}

/// Each key of a merge is the key of an input.
pub proof fn lemma_merge_all_keys_come_from_inputs(results: Seq<CatalogResultView>)
    ensures
        forall|i: int|
            0 <= i < merge_all(results).1.len() ==> exists|j: int|
                0 <= j < results.len() && view_key(results[j]) == #[trigger] merge_all(
                    results,
                ).1[i],
    decreases results.len(),
{
    if results.len() > 0 {
        let prev = results.drop_last();
        lemma_merge_all_keys_come_from_inputs(prev);
        let (m, keys) = merge_all(prev);
        let c = results.last();
        let n = results.len() - 1;
        let keys2 = merge_all(results).1;
        assert forall|i: int| 0 <= i < keys2.len() implies exists|j: int|
            0 <= j < results.len() && view_key(results[j]) == #[trigger] keys2[i] by {
            if i < keys.len() {
                assert(keys2[i] == keys[i]);
                let j = choose|j: int| 0 <= j < prev.len() && view_key(prev[j]) == keys[i];
                assert(results[j] == prev[j]);
            } else {
                assert(view_key(results[n]) == keys2[i]);
            }
        }
    }
}

/// The source of a merged pair: Google Books replaces another provider;
/// otherwise the first result's source stays.
pub proof fn lemma_merged_source(base: CatalogResultView, candidate: CatalogResultView)
    ensures
        merged(base, candidate).source_key == (if base.source_key != "google_books"@
            && candidate.source_key == "google_books"@ {
            candidate.source_key
        } else {
            base.source_key
        }),
{
}

/// A merged result comes from Google Books exactly when an input merged
/// into it does.
pub proof fn lemma_merge_all_google(results: Seq<CatalogResultView>)
    ensures
        forall|i: int|
            0 <= i < merge_all(results).0.len() ==> ((#[trigger] merge_all(results).0[i]).source_key
                == "google_books"@ <==> key_has_google(results, merge_all(results).1[i])),
    decreases results.len(),
{
    lemma_merge_all(results);
    if results.len() > 0 {
        let prev = results.drop_last();
        lemma_merge_all_google(prev);
        lemma_merge_all(prev);
        lemma_merge_all_covers(prev);
        let (m, keys) = merge_all(prev);
        let c = results.last();
        let n = results.len() - 1;
        let (m2, keys2) = merge_all(results);
        assert forall|i: int| 0 <= i < m2.len() implies ((#[trigger] m2[i]).source_key
            == "google_books"@ <==> key_has_google(results, keys2[i])) by {
            let same_key = keys2[i] == view_key(c);
            if i < m.len() {
                assert(keys2[i] == keys[i]);
            }
            // inputs before the last one
            if key_has_google(prev, keys2[i]) {
                let j = choose|j: int|
                    0 <= j < prev.len() && view_key(#[trigger] prev[j]) == keys2[i]
                        && prev[j].source_key == "google_books"@;
                assert(results[j] == prev[j]);
            }
            if key_has_google(results, keys2[i]) && !(same_key && c.source_key == "google_books"@) {
                let j = choose|j: int|
                    0 <= j < results.len() && view_key(#[trigger] results[j]) == keys2[i]
                        && results[j].source_key == "google_books"@;
                if j < n {
                    assert(results[j] == prev[j]);
                }
            }
            if same_key && c.source_key == "google_books"@ {
                assert(view_key(results[n]) == keys2[i]);
            }
            match index_of_key(keys, view_key(c)) {
                Some(k) => {
                    lemma_merged_source(m[k], c);
                    if i != k {
                        lemma_index_of_distinct(keys, view_key(c), k);
                        if same_key {
                            lemma_index_of_distinct(keys, view_key(c), i);
                        }
                    }
                },
                None => {
                    if i < m.len() && same_key {
                        assert(keys[i] == view_key(c));
                    }
                    if i == m.len() && key_has_google(prev, keys2[i]) {
                        let j = choose|j: int|
                            0 <= j < prev.len() && view_key(#[trigger] prev[j]) == keys2[i]
                                && prev[j].source_key == "google_books"@;
                        let i2 = choose|i2: int| 0 <= i2 < keys.len() && keys[i2] == view_key(prev[j]);
                        assert(keys[i2] == view_key(c));
                    }
                },
            }
        }
    }
}

/// The keys a merge stands for, computed alone.
pub open spec fn merge_keys(results: Seq<CatalogResultView>) -> Seq<Seq<char>>
    decreases results.len(),
{
    if results.len() == 0 {
        seq![]
    } else {
        let keys = merge_keys(results.drop_last());
        match index_of_key(keys, view_key(results.last())) {
            Some(_) => keys,
            None => keys.push(view_key(results.last())),
        }
    }
}

proof fn lemma_merge_keys(results: Seq<CatalogResultView>)
    ensures
        merge_all(results).1 == merge_keys(results),
    decreases results.len(),
{
    if results.len() > 0 {
        lemma_merge_keys(results.drop_last());
    }
}

proof fn lemma_merge_keys_facts(results: Seq<CatalogResultView>)
    ensures
        distinct(merge_keys(results)),
        forall|j: int|
            0 <= j < results.len() ==> exists|i: int|
                0 <= i < merge_keys(results).len() && merge_keys(results)[i] == view_key(
                    #[trigger] results[j],
                ),
        forall|i: int|
            0 <= i < merge_keys(results).len() ==> exists|j: int|
                0 <= j < results.len() && view_key(results[j]) == #[trigger] merge_keys(results)[i],
{
    lemma_merge_keys(results);
    lemma_merge_all(results);
    lemma_merge_all_covers(results);
    lemma_merge_all_keys_come_from_inputs(results);
}

/// Wherever an input has key `b`, an earlier input has key `a`.
pub open spec fn seen_before(results: Seq<CatalogResultView>, a: Seq<char>, b: Seq<char>) -> bool {
    forall|q: int|
        0 <= q < results.len() && view_key(#[trigger] results[q]) == b ==> exists|p: int|
            0 <= p < q && view_key(#[trigger] results[p]) == a
}

#[verifier::rlimit(100)]
proof fn lemma_order_at(results: Seq<CatalogResultView>, i: int, j: int, q: int)
    requires
        results.len() > 0,
        0 <= i < j < merge_keys(results).len(),
        0 <= q < results.len(),
        view_key(results[q]) == merge_keys(results)[j],
        forall|i2: int, j2: int|
            0 <= i2 < j2 < merge_keys(results.drop_last()).len() ==> seen_before(
                results.drop_last(),
                #[trigger] merge_keys(results.drop_last())[i2],
                #[trigger] merge_keys(results.drop_last())[j2],
            ),
    ensures
        exists|p: int| 0 <= p < q && view_key(#[trigger] results[p]) == merge_keys(results)[i],
{
    let prev = results.drop_last();
    lemma_merge_keys_facts(prev);
    let keys = merge_keys(prev);
    let c = results.last();
    let n = results.len() - 1;
    let keys2 = merge_keys(results);
    let found = index_of_key(keys, view_key(c)) is Some;
    if !found {
        assert(forall|k: int| 0 <= k < keys.len() ==> keys[k] != view_key(c));
        assert(keys2 == keys.push(view_key(c)));
    } else {
        assert(keys2 == keys);
    }
    assert(i < keys.len());
    assert(keys2[i] == keys[i]);
    if q < n {
        assert(results[q] == prev[q]);
        if j < keys.len() {
            assert(keys2[j] == keys[j]);
            assert(seen_before(prev, keys[i], keys[j]));
            let p = choose|p: int| 0 <= p < q && view_key(#[trigger] prev[p]) == keys[i];
            assert(results[p] == prev[p]);
        } else {
            let i2 = choose|i2: int| 0 <= i2 < keys.len() && keys[i2] == view_key(#[trigger] prev[q]);
            assert(keys[i2] == view_key(c));
        }
    } else {
        if j < keys.len() && !found {
            assert(keys2[j] == keys[j]);
            assert(keys[j] == view_key(c));
        }
        let p = choose|p: int| 0 <= p < prev.len() && view_key(prev[p]) == #[trigger] keys[i];
        assert(results[p] == prev[p]);
    }
}

proof fn lemma_order_step(results: Seq<CatalogResultView>, i: int, j: int)
    requires
        results.len() > 0,
        0 <= i < j < merge_keys(results).len(),
        forall|i2: int, j2: int|
            0 <= i2 < j2 < merge_keys(results.drop_last()).len() ==> seen_before(
                results.drop_last(),
                #[trigger] merge_keys(results.drop_last())[i2],
                #[trigger] merge_keys(results.drop_last())[j2],
            ),
    ensures
        seen_before(results, merge_keys(results)[i], merge_keys(results)[j]),
{
    assert forall|q: int|
        0 <= q < results.len() && view_key(#[trigger] results[q]) == merge_keys(results)[j] implies exists|p: int|
        0 <= p < q && view_key(#[trigger] results[p]) == merge_keys(results)[i] by {
        lemma_order_at(results, i, j, q);
    }
}

proof fn lemma_merge_keys_order(results: Seq<CatalogResultView>)
    ensures
        forall|i: int, j: int|
            0 <= i < j < merge_keys(results).len() ==> seen_before(
                results,
                #[trigger] merge_keys(results)[i],
                #[trigger] merge_keys(results)[j],
            ),
    decreases results.len(),
{
    if results.len() > 0 {
        lemma_merge_keys_order(results.drop_last());
        assert forall|i: int, j: int| 0 <= i < j < merge_keys(results).len() implies seen_before(
            results,
            #[trigger] merge_keys(results)[i],
            #[trigger] merge_keys(results)[j],
        ) by {
            lemma_order_step(results, i, j);
        }
    }
}

/// The keys of a merge come in the order in which they first appear among
/// the inputs: wherever an input has a later key, an earlier input has each
/// earlier key.
pub proof fn merged_keys_keep_first_seen_order(results: Seq<CatalogResultView>)
    ensures
        forall|i: int, j: int|
            0 <= i < j < merge_all(results).1.len() ==> seen_before(
                results,
                #[trigger] merge_all(results).1[i],
                #[trigger] merge_all(results).1[j],
            ),
{
    lemma_merge_keys(results);
    lemma_merge_keys_order(results);
}

/// Merging keeps one result per distinct key: every input's key is among
/// the keys the results stand for, each of those keys is an input's key,
/// no key appears twice, and a result comes from Google Books exactly when
/// an input with its key does.
pub proof fn merged_results_cover_each_key_once(results: Seq<CatalogResultView>)
    ensures
        merge_all(results).0.len() == merge_all(results).1.len(),
        distinct(merge_all(results).1),
        forall|j: int|
            0 <= j < results.len() ==> exists|i: int|
                0 <= i < merge_all(results).1.len() && merge_all(results).1[i] == view_key(
                    #[trigger] results[j],
                ),
        forall|i: int|
            0 <= i < merge_all(results).1.len() ==> exists|j: int|
                0 <= j < results.len() && view_key(results[j]) == #[trigger] merge_all(
                    results,
                ).1[i],
        forall|i: int|
            0 <= i < merge_all(results).0.len() ==> ((#[trigger] merge_all(results).0[i]).source_key
                == "google_books"@ <==> key_has_google(results, merge_all(results).1[i])),
{
    lemma_merge_all(results);
    lemma_merge_all_covers(results);
    lemma_merge_all_keys_come_from_inputs(results);
    lemma_merge_all_google(results);
}

/// The candidate is a Google Books result and the base is not.
pub open spec fn google_replaces(base: CatalogResultView, candidate: CatalogResultView) -> bool {
    base.source_key != "google_books"@ && candidate.source_key == "google_books"@
}

/// `result` is the candidate's value when the base's is blank and the
/// candidate's is not, and the base's value otherwise.
pub open spec fn takes_blank(result: Seq<char>, base: Seq<char>, candidate: Seq<char>) -> bool {
    if trim(base).len() == 0 && trim(candidate).len() > 0 {
        result == candidate
    } else {
        result == base
    }
}

/// Merging two results for one book. A Google Books result replacing one
/// from another provider brings all its own values. Otherwise the base keeps
/// its identity, title and other values, each blank text field of the base
/// (subtitle, description, publisher, date, ISBNs, cover, work and edition
/// keys, links) takes the candidate's non-blank value, and a missing page
/// count takes the candidate's.
pub proof fn merging_fills_blank_fields(base: CatalogResultView, candidate: CatalogResultView)
    ensures
        !google_replaces(base, candidate) ==> takes_blank(
            merged(base, candidate).subtitle,
            base.subtitle,
            candidate.subtitle,
        ),
        !google_replaces(base, candidate) ==> takes_blank(
            merged(base, candidate).description,
            base.description,
            candidate.description,
        ),
        !google_replaces(base, candidate) ==> takes_blank(
            merged(base, candidate).publisher,
            base.publisher,
            candidate.publisher,
        ),
        !google_replaces(base, candidate) ==> takes_blank(
            merged(base, candidate).published_date,
            base.published_date,
            candidate.published_date,
        ),
        !google_replaces(base, candidate) ==> takes_blank(
            merged(base, candidate).isbn_10,
            base.isbn_10,
            candidate.isbn_10,
        ),
        !google_replaces(base, candidate) ==> takes_blank(
            merged(base, candidate).isbn_13,
            base.isbn_13,
            candidate.isbn_13,
        ),
        !google_replaces(base, candidate) ==> takes_blank(
            merged(base, candidate).cover_url,
            base.cover_url,
            candidate.cover_url,
        ),
        !google_replaces(base, candidate) ==> takes_blank(
            merged(base, candidate).work_key,
            base.work_key,
            candidate.work_key,
        ),
        !google_replaces(base, candidate) ==> takes_blank(
            merged(base, candidate).edition_key,
            base.edition_key,
            candidate.edition_key,
        ),
        !google_replaces(base, candidate) ==> takes_blank(
            merged(base, candidate).info_url,
            base.info_url,
            candidate.info_url,
        ),
        !google_replaces(base, candidate) ==> takes_blank(
            merged(base, candidate).preview_url,
            base.preview_url,
            candidate.preview_url,
        ),
        !google_replaces(base, candidate) ==> merged(base, candidate).source_key == base.source_key,
        !google_replaces(base, candidate) ==> merged(base, candidate).external_id == base.external_id,
        !google_replaces(base, candidate) ==> merged(base, candidate).title == base.title,
        !google_replaces(base, candidate) ==> merged(base, candidate).language == base.language,
        !google_replaces(base, candidate) ==> merged(base, candidate).format == base.format,
        !google_replaces(base, candidate) ==> merged(base, candidate).already_in_library == base.already_in_library,
        !google_replaces(base, candidate) ==> merged(base, candidate).existing_entry_id == base.existing_entry_id,
        !google_replaces(base, candidate) ==> merged(base, candidate).match_basis == base.match_basis,
        !google_replaces(base, candidate) ==> merged(base, candidate).page_count == (
            if base.page_count is None {
                candidate.page_count
            } else {
                base.page_count
            }),
        google_replaces(base, candidate) ==> merged(base, candidate).source_key == candidate.source_key,
        google_replaces(base, candidate) ==> merged(base, candidate).external_id == candidate.external_id,
        google_replaces(base, candidate) ==> merged(base, candidate).title == candidate.title,
        google_replaces(base, candidate) ==> merged(base, candidate).subtitle == candidate.subtitle,
        google_replaces(base, candidate) ==> merged(base, candidate).description == candidate.description,
        google_replaces(base, candidate) ==> merged(base, candidate).publisher == candidate.publisher,
        google_replaces(base, candidate) ==> merged(base, candidate).published_date == candidate.published_date,
        google_replaces(base, candidate) ==> merged(base, candidate).isbn_10 == candidate.isbn_10,
        google_replaces(base, candidate) ==> merged(base, candidate).isbn_13 == candidate.isbn_13,
        google_replaces(base, candidate) ==> merged(base, candidate).cover_url == candidate.cover_url,
        google_replaces(base, candidate) ==> merged(base, candidate).work_key == candidate.work_key,
        google_replaces(base, candidate) ==> merged(base, candidate).edition_key == candidate.edition_key,
        google_replaces(base, candidate) ==> merged(base, candidate).info_url == candidate.info_url,
        google_replaces(base, candidate) ==> merged(base, candidate).preview_url == candidate.preview_url,
        google_replaces(base, candidate) ==> merged(base, candidate).page_count == candidate.page_count,
        google_replaces(base, candidate) ==> merged(base, candidate).authors == candidate.authors,
        google_replaces(base, candidate) ==> merged(base, candidate).language == candidate.language,
        google_replaces(base, candidate) ==> merged(base, candidate).format == candidate.format,
        google_replaces(base, candidate) ==> merged(base, candidate).already_in_library == candidate.already_in_library,
        google_replaces(base, candidate) ==> merged(base, candidate).existing_entry_id == candidate.existing_entry_id,
        google_replaces(base, candidate) ==> merged(base, candidate).match_basis == candidate.match_basis,
{
}

proof fn lemma_appended_unique(target: Seq<Seq<char>>, candidates: Seq<Seq<char>>)
    ensures
        appended_unique(target, candidates).len() >= target.len(),
        appended_unique(target, candidates).subrange(0, target.len() as int) == target,
        forall|k: int|
            0 <= k < candidates.len() && trim(#[trigger] candidates[k]).len() > 0
                ==> has_case_insensitive(appended_unique(target, candidates), candidates[k]),
    decreases candidates.len(),
{
    if candidates.len() > 0 {
        let prefix = candidates.drop_last();
        lemma_appended_unique(target, prefix);
        let r = appended_unique(target, prefix);
        let c = candidates.last();
        if trim(c).len() > 0 && !has_case_insensitive(r, c) {
            let r2 = r.push(c);
            assert(r2.subrange(0, target.len() as int) =~= r.subrange(0, target.len() as int));
            assert(eq_ignore_ascii_case(r2[r.len() as int], c));
            assert forall|k: int|
                0 <= k < candidates.len() && trim(#[trigger] candidates[k]).len() > 0
                    implies has_case_insensitive(r2, candidates[k]) by {
                if k < prefix.len() {
                    assert(candidates[k] == prefix[k]);
                    let w = choose|w: int| 0 <= w < r.len() && eq_ignore_ascii_case(#[trigger] r[w], prefix[k]);
                    assert(r2[w] == r[w]);
                } else {
                    assert(r2[r.len() as int] == c);
                }
            }
        } else {
            assert forall|k: int|
                0 <= k < candidates.len() && trim(#[trigger] candidates[k]).len() > 0
                    implies has_case_insensitive(r, candidates[k]) by {
                if k < prefix.len() {
                    assert(candidates[k] == prefix[k]);
                }
            }
        }
    }
}

/// Merging keeps the base's authors and badges first, in order, and every
/// non-blank author and badge of the other result appears among the
/// merged ones (letters compared without regard to ASCII case). When a
/// Google Books result replaces another, the Google badges come first and
/// the replaced result's badges are kept after them.
pub proof fn merging_keeps_authors_and_badges(base: CatalogResultView, candidate: CatalogResultView)
    ensures
        !google_replaces(base, candidate) ==> {
            let m = merged(base, candidate);
            &&& m.authors.len() >= base.authors.len()
            &&& m.authors.subrange(0, base.authors.len() as int) == base.authors
            &&& forall|k: int|
                0 <= k < candidate.authors.len() && trim(#[trigger] candidate.authors[k]).len() > 0
                    ==> has_case_insensitive(m.authors, candidate.authors[k])
            &&& m.provider_badges.len() >= base.provider_badges.len()
            &&& m.provider_badges.subrange(0, base.provider_badges.len() as int)
                == base.provider_badges
            &&& forall|k: int|
                0 <= k < candidate.provider_badges.len() && trim(
                    #[trigger] candidate.provider_badges[k],
                ).len() > 0 ==> has_case_insensitive(
                    m.provider_badges,
                    candidate.provider_badges[k],
                )
        },
        google_replaces(base, candidate) ==> {
            let m = merged(base, candidate);
            &&& m.provider_badges.len() >= candidate.provider_badges.len()
            &&& m.provider_badges.subrange(0, candidate.provider_badges.len() as int)
                == candidate.provider_badges
            &&& forall|k: int|
                0 <= k < base.provider_badges.len() && trim(#[trigger] base.provider_badges[k]).len()
                    > 0 ==> has_case_insensitive(m.provider_badges, base.provider_badges[k])
            &&& m.source_identities == candidate.source_identities + base.source_identities
        },
{
    lemma_appended_unique(base.authors, candidate.authors);
    lemma_appended_unique(base.provider_badges, candidate.provider_badges);
    lemma_appended_unique(candidate.provider_badges, base.provider_badges);
}

/// Each of the key fields of a result (ISBN-13, ISBN-10, work key) is empty
/// or holds more than whitespace.
pub open spec fn keys_not_blank(r: CatalogResultView) -> bool {
    &&& (r.isbn_13.len() == 0 || trim(r.isbn_13).len() > 0)
    &&& (r.isbn_10.len() == 0 || trim(r.isbn_10).len() > 0)
    &&& (r.work_key.len() == 0 || trim(r.work_key).len() > 0)
}

proof fn lemma_merged_key(base: CatalogResultView, candidate: CatalogResultView)
    requires
        keys_not_blank(base),
        keys_not_blank(candidate),
        view_key(base) == view_key(candidate),
    ensures
        keys_not_blank(merged(base, candidate)),
        view_key(merged(base, candidate)) == view_key(base),
{
    crate::text::lemma_trim_len(base.isbn_13);
    crate::text::lemma_trim_len(base.isbn_10);
    crate::text::lemma_trim_len(base.work_key);
    crate::text::lemma_trim_len(candidate.isbn_13);
    crate::text::lemma_trim_len(candidate.isbn_10);
    crate::text::lemma_trim_len(candidate.work_key);
}

proof fn lemma_merge_all_keys(results: Seq<CatalogResultView>)
    requires
        forall|j: int| 0 <= j < results.len() ==> keys_not_blank(#[trigger] results[j]),
    ensures
        forall|i: int|
            0 <= i < merge_all(results).0.len() ==> view_key(#[trigger] merge_all(results).0[i])
                == merge_all(results).1[i] && keys_not_blank(merge_all(results).0[i]),
    decreases results.len(),
{
    if results.len() > 0 {
        let prefix = results.drop_last();
        assert forall|j: int| 0 <= j < prefix.len() implies keys_not_blank(#[trigger] prefix[j]) by {
            assert(prefix[j] == results[j]);
        }
        lemma_merge_all(prefix);
        lemma_merge_all_keys(prefix);
        let (m, keys) = merge_all(prefix);
        let c = results.last();
        assert(keys_not_blank(c));
        match index_of_key(keys, view_key(c)) {
            Some(i) => {
                assert(0 <= i < keys.len() && keys[i] == view_key(c));
                lemma_merged_key(m[i], c);
            },
            None => {},
        }
    }
}

/// Every merged result is filed under its own key: the key of the i-th
/// result is the i-th key first seen among the inputs. This holds when no
/// input has an ISBN or work key made of whitespace alone.
pub proof fn merged_results_keep_their_keys(results: Seq<CatalogResultView>)
    requires
        forall|j: int| 0 <= j < results.len() ==> keys_not_blank(#[trigger] results[j]),
    ensures
        forall|i: int|
            0 <= i < merge_all(results).0.len() ==> view_key(#[trigger] merge_all(results).0[i])
                == merge_all(results).1[i],
{
    lemma_merge_all_keys(results);
}

/// Replaces a blank target with a non-blank candidate.
pub fn fill_string(target: &mut String, candidate: String)
    ensures
        final(target)@ == filled(old(target)@, candidate@),
{
    let t = chars_of(target.as_str());
    let tt = trim_chars(&t);
    let c = chars_of(candidate.as_str());
    let ct = trim_chars(&c);
    if tt.len() == 0 && ct.len() > 0 {
        *target = candidate;
    }
}

fn eq_ignore_ascii_case_exec(a: &String, b: &String) -> (r: bool)
    ensures
        r == eq_ignore_ascii_case(a@, b@),
{
    let av = chars_of(a.as_str());
    let bv = chars_of(b.as_str());
    let al = lower_ascii_chars(&av);
    let bl = lower_ascii_chars(&bv);
    chars_eq(&al, &bl)
}

/// Appends the non-blank candidates that the target does not hold yet,
/// ignoring ASCII case.
pub fn append_unique(target: &mut Vec<String>, candidates: Vec<String>)
    ensures
        string_views(final(target)@) == appended_unique(
            string_views(old(target)@),
            string_views(candidates@),
        ),
{
    let mut i: usize = 0;
    while i < candidates.len()
        invariant
            i <= candidates.len(),
            string_views(target@) == appended_unique(
                string_views(old(target)@),
                string_views(candidates@.take(i as int)),
            ),
        decreases candidates.len() - i,
    {
        let c = candidates[i].clone();
        let cv = chars_of(c.as_str());
        let ct = trim_chars(&cv);
        let mut found = false;
        let mut j: usize = 0;
        while j < target.len()
            invariant
                j <= target.len(),
                !found ==> forall|k: int|
                    0 <= k < j ==> !eq_ignore_ascii_case(#[trigger] string_views(target@)[k], c@),
                found ==> has_case_insensitive(string_views(target@), c@),
            decreases target.len() - j,
        {
            if !found && eq_ignore_ascii_case_exec(&target[j], &c) {
                found = true;
                assert(string_views(target@)[j as int] == target@[j as int]@);
            }
            j = j + 1;
        }
        let ghost before = string_views(target@);
        assert(string_views(candidates@.take(i + 1)).drop_last() =~= string_views(
            candidates@.take(i as int),
        ));
        assert(string_views(candidates@.take(i + 1)).last() == c@);
        if ct.len() > 0 && !found {
            target.push(c);
            assert(string_views(target@) =~= before.push(c@));
        }
        i = i + 1;
    }
    assert(candidates@.take(candidates.len() as int) =~= candidates@);
}

fn copy_identity(x: &BookSourceIdentity) -> (r: BookSourceIdentity)
    ensures
        r@ == x@,
{
    BookSourceIdentity {
        source_key: x.source_key.clone(),
        entity_type: x.entity_type.clone(),
        external_id: x.external_id.clone(),
        source_url: x.source_url.clone(),
    }
}

fn same_identity_exec(a: &BookSourceIdentity, b: &BookSourceIdentity) -> (r: bool)
    ensures
        r == same_identity(a@, b@),
{
    a.source_key == b.source_key && a.entity_type == b.entity_type && a.external_id
        == b.external_id
}

/// Appends the candidate identities not already present.
pub fn append_identities(target: &mut Vec<BookSourceIdentity>, candidates: Vec<BookSourceIdentity>)
    ensures
        identity_views(final(target)@) == appended_identities(
            identity_views(old(target)@),
            identity_views(candidates@),
        ),
{
    let mut i: usize = 0;
    while i < candidates.len()
        invariant
            i <= candidates.len(),
            identity_views(target@) == appended_identities(
                identity_views(old(target)@),
                identity_views(candidates@.take(i as int)),
            ),
        decreases candidates.len() - i,
    {
        let c = copy_identity(&candidates[i]);
        let mut found = false;
        let mut j: usize = 0;
        while j < target.len()
            invariant
                j <= target.len(),
                !found ==> forall|k: int|
                    0 <= k < j ==> !same_identity(#[trigger] identity_views(target@)[k], c@),
                found ==> has_identity(identity_views(target@), c@),
            decreases target.len() - j,
        {
            if !found && same_identity_exec(&target[j], &c) {
                found = true;
                assert(identity_views(target@)[j as int] == target@[j as int]@);
            }
            j = j + 1;
        }
        let ghost before = identity_views(target@);
        assert(identity_views(candidates@.take(i + 1)).drop_last() =~= identity_views(
            candidates@.take(i as int),
        ));
        assert(identity_views(candidates@.take(i + 1)).last() == c@);
        if !found {
            target.push(c);
            assert(identity_views(target@) =~= before.push(c@));
        }
        i = i + 1;
    }
    assert(candidates@.take(candidates.len() as int) =~= candidates@);
}

/// Combines a result with a later one for the same book.
pub fn merge_candidate(base: BookCatalogResult, candidate: BookCatalogResult) -> (r:
    BookCatalogResult)
    ensures
        r@ == merged(base@, candidate@),
{
    let bk = chars_of(base.source_key.as_str());
    let ck = chars_of(candidate.source_key.as_str());
    let google = chars_of("google_books");
    if !chars_eq(&bk, &google) && chars_eq(&ck, &google) {
        let mut preferred = candidate;
        let mut base_ids = base.source_identities;
        let ghost ids_before = preferred.source_identities@;
        preferred.source_identities.append(&mut base_ids);
        assert(identity_views(preferred.source_identities@) =~= identity_views(ids_before)
            + identity_views(base.source_identities@));
        append_unique(&mut preferred.provider_badges, base.provider_badges);
        assert(preferred@ =~= merged(base@, candidate@));
        return preferred;
    }
    let mut b = base;
    fill_string(&mut b.subtitle, candidate.subtitle);
    fill_string(&mut b.description, candidate.description);
    fill_string(&mut b.publisher, candidate.publisher);
    fill_string(&mut b.published_date, candidate.published_date);
    fill_string(&mut b.isbn_10, candidate.isbn_10);
    fill_string(&mut b.isbn_13, candidate.isbn_13);
    fill_string(&mut b.cover_url, candidate.cover_url);
    fill_string(&mut b.work_key, candidate.work_key);
    fill_string(&mut b.edition_key, candidate.edition_key);
    fill_string(&mut b.info_url, candidate.info_url);
    fill_string(&mut b.preview_url, candidate.preview_url);
    if b.page_count.is_none() {
        b.page_count = candidate.page_count;
    }
    append_unique(&mut b.authors, candidate.authors);
    append_unique(&mut b.provider_badges, candidate.provider_badges);
    append_identities(&mut b.source_identities, candidate.source_identities);
    assert(b@ =~= merged(base@, candidate@));
    b
}

fn find_key(keys: &Vec<Vec<char>>, k: &Vec<char>) -> (r: Option<usize>)
    requires
        distinct(views(keys@)),
    ensures
        match r {
            Some(i) => index_of_key(views(keys@), k@) == Some(i as int),
            None => index_of_key(views(keys@), k@) is None,
        },
{
    let mut i: usize = 0;
    while i < keys.len()
        invariant
            i <= keys.len(),
            distinct(views(keys@)),
            forall|j: int| 0 <= j < i ==> views(keys@)[j] != k@,
        decreases keys.len() - i,
    {
        if chars_eq(&keys[i], k) {
            proof {
                lemma_index_of_distinct(views(keys@), k@, i as int);
            }
            return Some(i);
        }
        i = i + 1;
    }
    None
}

/// Combines results that share a dedupe key, keeping the order in which each
/// key was first seen.
pub fn merge_catalog_results(results: Vec<BookCatalogResult>) -> (r: Vec<BookCatalogResult>)
    ensures
        result_views(r@) == merge_all(result_views(results@)).0,
{
    let ghost orig = results@;
    let mut merged_results: Vec<BookCatalogResult> = Vec::new();
    let mut keys: Vec<Vec<char>> = Vec::new();
    let mut rest = results;
    let ghost mut n: int = 0;
    assert(orig.skip(0) =~= orig);
    while rest.len() > 0
        invariant
            0 <= n <= orig.len(),
            rest@ == orig.skip(n),
            result_views(merged_results@) == merge_all(result_views(orig.take(n))).0,
            views(keys@) == merge_all(result_views(orig.take(n))).1,
            distinct(views(keys@)),
            merged_results@.len() == keys@.len(),
        decreases rest.len(),
    {
        let c = rest.remove(0);
        proof {
            assert(orig.skip(n + 1) =~= orig.skip(n).drop_first());
            assert(result_views(orig.take(n + 1)).drop_last() =~= result_views(orig.take(n)));
            assert(result_views(orig.take(n + 1)).last() == c@);
            lemma_merge_all(result_views(orig.take(n + 1)));
        }
        let key = c.dedupe_key();
        let kc = chars_of(key.as_str());
        match find_key(&keys, &kc) {
            Some(idx) => {
                let b = merged_results.remove(idx);
                let nb = merge_candidate(b, c);
                merged_results.insert(idx, nb);
                assert(result_views(merged_results@) =~= merge_all(
                    result_views(orig.take(n + 1)),
                ).0);
            },
            None => {
                let ghost before = result_views(merged_results@);
                merged_results.push(c);
                keys.push(kc);
                assert(result_views(merged_results@) =~= before.push(c@));
                assert(views(keys@) =~= merge_all(result_views(orig.take(n + 1))).1);
            },
        }
        proof {
            n = n + 1;
        }
    }
    assert(orig.take(n) =~= orig);
    merged_results
}

} // verus!
