//! Scanning helpers for the HTML fragments that the documentation and listing
//! importers read: locating markers, cutting out the text between them, and
//! dropping tags.
use crate::text::{find, find_exec, lemma_find_from, lemma_rfind_upto, rfind, rfind_exec, slice_of};
use vstd::prelude::*;

verus! {

/// `find`, together with the bound that a match fits inside the text.
pub fn find_in(v: &Vec<char>, p: &Vec<char>) -> (r: Option<usize>)
    ensures
        match r {
            Some(k) => find(v@, p@) == Some(k as int) && k + p@.len() <= v@.len(),
            None => find(v@, p@) is None,
        },
{
    let r = find_exec(v, p);
    proof {
        lemma_find_from(v@, p@, 0);
    }
    r
}

/// `rfind`, together with the bound that a match fits inside the text.
pub fn rfind_in(v: &Vec<char>, p: &Vec<char>) -> (r: Option<usize>)
    ensures
        match r {
            Some(k) => rfind(v@, p@) == Some(k as int) && k + p@.len() <= v@.len(),
            None => rfind(v@, p@) is None,
        },
{
    let r = rfind_exec(v, p);
    proof {
        lemma_rfind_upto(v@, p@, v@.len() - p@.len());
    }
    r
}

/// The text before the first occurrence of `p`, or all of it: the first
/// piece that `str::split` yields.
pub open spec fn before(s: Seq<char>, p: Seq<char>) -> Seq<char> {
    match find(s, p) {
        Some(k) => s.take(k),
        None => s,
    }
}

/// The text after the first occurrence of `p`, if there is one.
pub open spec fn after(s: Seq<char>, p: Seq<char>) -> Option<Seq<char>> {
    match find(s, p) {
        Some(k) => Some(s.skip(k + p.len())),
        None => None,
    }
}

/// The second piece that `str::split` yields: the text between the first
/// and the second occurrence of `p`, or up to the end.
pub open spec fn second_piece(s: Seq<char>, p: Seq<char>) -> Option<Seq<char>> {
    match after(s, p) {
        Some(rest) => Some(before(rest, p)),
        None => None,
    }
}

/// The text between the first `open` marker and the first `close` marker
/// after it.
pub open spec fn between(s: Seq<char>, open: Seq<char>, close: Seq<char>) -> Option<Seq<char>> {
    match after(s, open) {
        Some(rest) => match find(rest, close) {
            Some(e) => Some(rest.take(e)),
            None => None,
        },
        None => None,
    }
}

/// Starting at the tag that opens at `i`: the text after the tag's first `>`
/// and before the next `close`.
pub open spec fn tag_body(s: Seq<char>, i: int, close: Seq<char>) -> Option<Seq<char>> {
    match find(s.skip(i), seq!['>']) {
        Some(g) => {
            let rest = s.skip(i + g + 1);
            match find(rest, close) {
                Some(e) => Some(rest.take(e)),
                None => None,
            }
        },
        None => None,
    }
}

pub fn before_chars(v: &Vec<char>, p: &Vec<char>) -> (r: Vec<char>)
    ensures
        r@ == before(v@, p@),
{
    match find_in(v, p) {
        Some(k) => {
            let r = slice_of(v, 0, k);
            assert(r@ =~= v@.take(k as int));
            r
        },
        None => slice_of(v, 0, v.len()),
    }
}

pub fn after_chars(v: &Vec<char>, p: &Vec<char>) -> (r: Option<Vec<char>>)
    ensures
        match r {
            Some(x) => after(v@, p@) == Some(x@) && x@.len() <= v@.len(),
            None => after(v@, p@) is None,
        },
{
    let found = find_in(v, p);
    match found {
        Some(k) => {
            let n = v.len();
            let plen = p.len();
            assert(k + plen <= n);
            let r = slice_of(v, k + plen, n);
            assert(r@ =~= v@.skip(k + p@.len()));
            Some(r)
        },
        None => None,
    }
}

pub fn second_piece_chars(v: &Vec<char>, p: &Vec<char>) -> (r: Option<Vec<char>>)
    ensures
        match r {
            Some(x) => second_piece(v@, p@) == Some(x@),
            None => second_piece(v@, p@) is None,
        },
{
    match after_chars(v, p) {
        Some(rest) => Some(before_chars(&rest, p)),
        None => None,
    }
}

pub fn between_chars(v: &Vec<char>, open: &Vec<char>, close: &Vec<char>) -> (r: Option<Vec<char>>)
    ensures
        match r {
            Some(x) => between(v@, open@, close@) == Some(x@),
            None => between(v@, open@, close@) is None,
        },
{
    match after_chars(v, open) {
        Some(rest) => match find_in(&rest, close) {
            Some(e) => {
                let r = slice_of(&rest, 0, e);
                assert(r@ =~= rest@.take(e as int));
                Some(r)
            },
            None => None,
        },
        None => None,
    }
}

pub fn tag_body_chars(v: &Vec<char>, i: usize, close: &Vec<char>) -> (r: Option<Vec<char>>)
    requires
        i <= v.len(),
    ensures
        match r {
            Some(x) => tag_body(v@, i as int, close@) == Some(x@),
            None => tag_body(v@, i as int, close@) is None,
        },
{
    let tail = slice_of(v, i, v.len());
    assert(tail@ =~= v@.skip(i as int));
    let gt = vec!['>'];
    assert(gt@ =~= seq!['>']);
    match find_in(&tail, &gt) {
        Some(g) => {
            let rest = slice_of(v, i + g + 1, v.len());
            assert(rest@ =~= v@.skip(i + g + 1));
            match find_in(&rest, close) {
                Some(e) => {
                    let r = slice_of(&rest, 0, e);
                    assert(r@ =~= rest@.take(e as int));
                    Some(r)
                },
                None => None,
            }
        },
        None => None,
    }
}

// ------------------------------------------------------------ tag stripping

/// Walks `s` left to right: the text outside tags, with one space for each
/// `>`, and whether the walk ends inside a tag.
pub open spec fn tag_text(s: Seq<char>) -> (Seq<char>, bool)
    decreases s.len(),
{
    if s.len() == 0 {
        (seq![], false)
    } else {
        let (out, in_tag) = tag_text(s.drop_last());
        let c = s.last();
        if c == '<' {
            (out, true)
        } else if c == '>' {
            (out.push(' '), false)
        } else if !in_tag {
            (out.push(c), in_tag)
        } else {
            (out, in_tag)
        }
    }
}

pub fn tag_text_chars(v: &Vec<char>) -> (r: Vec<char>)
    ensures
        r@ == tag_text(v@).0,
{
    let mut out: Vec<char> = Vec::new();
    let mut in_tag = false;
    let mut i: usize = 0;
    while i < v.len()
        invariant
            i <= v.len(),
            (out@, in_tag) == tag_text(v@.take(i as int)),
        decreases v.len() - i,
    {
        let c = v[i];
        assert(v@.take(i + 1).drop_last() =~= v@.take(i as int));
        assert(v@.take(i + 1).last() == c);
        if c == '<' {
            in_tag = true;
        } else if c == '>' {
            in_tag = false;
            out.push(' ');
        } else if !in_tag {
            out.push(c);
        }
        i = i + 1;
    }
    assert(v@.take(v.len() as int) =~= v@);
    out
}

// ------------------------------------------------------------ ordering

/// Lexicographic order by code point, which is the order of `String`.
pub open spec fn seq_lt(a: Seq<char>, b: Seq<char>) -> bool
    decreases a.len(),
{
    if a.len() == 0 {
        b.len() > 0
    } else if b.len() == 0 {
        false
    } else if a[0] != b[0] {
        a[0] < b[0]
    } else {
        seq_lt(a.drop_first(), b.drop_first())
    }
}

pub proof fn lemma_seq_lt_irreflexive(a: Seq<char>)
    ensures
        !seq_lt(a, a),
    decreases a.len(),
{
    if a.len() > 0 {
        lemma_seq_lt_irreflexive(a.drop_first());
    }
}

pub proof fn lemma_seq_lt_total(a: Seq<char>, b: Seq<char>)
    ensures
        a == b || seq_lt(a, b) || seq_lt(b, a),
    decreases a.len(),
{
    if a.len() > 0 && b.len() > 0 && a[0] == b[0] {
        lemma_seq_lt_total(a.drop_first(), b.drop_first());
        if a.drop_first() == b.drop_first() {
            assert(a =~= seq![a[0]] + a.drop_first());
            assert(b =~= seq![b[0]] + b.drop_first());
        }
    } else if a.len() == 0 && b.len() == 0 {
        assert(a =~= b);
    }
}

pub proof fn lemma_seq_lt_asymmetric(a: Seq<char>, b: Seq<char>)
    requires
        seq_lt(a, b),
    ensures
        !seq_lt(b, a),
    decreases a.len(),
{
    if a.len() > 0 && b.len() > 0 && a[0] == b[0] {
        lemma_seq_lt_asymmetric(a.drop_first(), b.drop_first());
    }
}

pub proof fn lemma_seq_lt_transitive(a: Seq<char>, b: Seq<char>, c: Seq<char>)
    requires
        seq_lt(a, b),
        seq_lt(b, c),
    ensures
        seq_lt(a, c),
    decreases a.len(),
{
    if a.len() > 0 && b.len() > 0 && c.len() > 0 && a[0] == b[0] && b[0] == c[0] {
        lemma_seq_lt_transitive(a.drop_first(), b.drop_first(), c.drop_first());
    }
}

/// Compares two character sequences in the order of `String`.
pub fn chars_lt(a: &Vec<char>, b: &Vec<char>) -> (r: bool)
    ensures
        r == seq_lt(a@, b@),
{
    let mut i: usize = 0;
    assert(a@.skip(0) =~= a@);
    assert(b@.skip(0) =~= b@);
    while i < a.len() && i < b.len() && a[i] == b[i]
        invariant
            i <= a.len(),
            i <= b.len(),
            seq_lt(a@, b@) == seq_lt(a@.skip(i as int), b@.skip(i as int)),
        decreases a.len() - i,
    {
        assert(a@.skip(i as int).drop_first() =~= a@.skip(i + 1));
        assert(b@.skip(i as int).drop_first() =~= b@.skip(i + 1));
        i = i + 1;
    }
    if i == a.len() {
        i < b.len()
    } else if i == b.len() {
        false
    } else {
        a[i] < b[i]
    }
}

/// No element occurs twice, and the elements ascend.
pub open spec fn strictly_sorted(s: Seq<Seq<char>>) -> bool {
    forall|i: int, j: int| 0 <= i < j < s.len() ==> seq_lt(#[trigger] s[i], #[trigger] s[j])
}

/// Adds `x` to a strictly ascending list unless it is there already, keeping
/// the list strictly ascending: what inserting into a `BTreeSet` does.
pub fn insert_sorted(list: &mut Vec<Vec<char>>, x: Vec<char>)
    requires
        strictly_sorted(crate::text::views(old(list)@)),
    ensures
        strictly_sorted(crate::text::views(final(list)@)),
        crate::text::views(final(list)@).to_set() == crate::text::views(old(list)@).to_set().insert(
            x@,
        ),
{
    let ghost xs = x@;
    let ghost before_list = crate::text::views(list@);
    let mut p: usize = 0;
    while p < list.len() && chars_lt(&list[p], &x)
        invariant
            xs == x@,
            p <= list.len(),
            list@ == old(list)@,
            before_list == crate::text::views(list@),
            forall|i: int| 0 <= i < p ==> seq_lt(#[trigger] before_list[i], xs),
        decreases list.len() - p,
    {
        assert(before_list[p as int] == list@[p as int]@);
        assert(seq_lt(before_list[p as int], xs));
        p = p + 1;
    }
    if p < list.len() && crate::text::chars_eq(&list[p], &x) {
        proof {
            assert(before_list[p as int] == xs);
            assert(before_list.to_set().insert(xs) =~= before_list.to_set());
        }
        return;
    }
    proof {
        if p < list.len() {
            lemma_seq_lt_total(before_list[p as int], xs);
            assert forall|j: int| p <= j < before_list.len() implies seq_lt(
                xs,
                #[trigger] before_list[j],
            ) by {
                if j > p {
                    lemma_seq_lt_transitive(xs, before_list[p as int], before_list[j]);
                }
            }
        }
    }
    list.insert(p, x);
    proof {
        let after_list = crate::text::views(list@);
        assert(after_list =~= before_list.insert(p as int, xs));
        assert forall|i: int, j: int| 0 <= i < j < after_list.len() implies seq_lt(
            #[trigger] after_list[i],
            #[trigger] after_list[j],
        ) by {
            if j < p {
            } else if j == p {
            } else if i < p {
                assert(after_list[j] == before_list[j - 1]);
                lemma_seq_lt_transitive(before_list[i], xs, before_list[j - 1]);
            } else if i == p {
            } else {
                assert(after_list[i] == before_list[i - 1]);
                assert(after_list[j] == before_list[j - 1]);
            }
        }
        assert forall|s: Seq<char>| after_list.to_set().contains(s) <==> before_list.to_set().insert(
            xs,
        ).contains(s) by {
            if after_list.to_set().contains(s) {
                let k = after_list.index_of(s);
                assert(after_list.contains(s));
                let w = choose|w: int| 0 <= w < after_list.len() && after_list[w] == s;
                if w < p {
                    assert(before_list[w] == s);
                } else if w > p {
                    assert(before_list[w - 1] == s);
                }
            }
            if before_list.to_set().insert(xs).contains(s) {
                if s == xs {
                    assert(after_list[p as int] == s);
                } else {
                    let w = choose|w: int| 0 <= w < before_list.len() && before_list[w] == s;
                    if w < p {
                        assert(after_list[w] == s);
                    } else {
                        assert(after_list[w + 1] == s);
                    }
                }
            }
        }
        assert(after_list.to_set() =~= before_list.to_set().insert(xs));
    }
}

} // verus!
