//! Sections of the GearBlocks scene context that count and group the
//! runtime parts: the inventories by system and name, and the construction
//! groups, each with an inventory of its parts by name.
use crate::gearblocks_scene_context::{part_display_name, part_name};
use crate::markup::{
    chars_lt, lemma_seq_lt_asymmetric, lemma_seq_lt_irreflexive, lemma_seq_lt_total,
    lemma_seq_lt_transitive, seq_lt,
};
use crate::text::{
    chars_eq, chars_of, decimal, extend_chars, extend_str, i64_to_decimal, join, join_chars,
    signed_decimal, slice_of, string_of, trim, trim_chars, u64_to_decimal, views,
};
use vstd::prelude::*;

verus! {

// ------------------------------------------------------------ integers in text

pub open spec fn is_digit(c: char) -> bool {
    '0' <= c && c <= '9'
}

pub open spec fn all_digits(d: Seq<char>) -> bool {
    forall|i: int| 0 <= i < d.len() ==> is_digit(#[trigger] d[i])
}

/// The value of a run of decimal digits.
pub open spec fn digits_value(d: Seq<char>) -> int
    decreases d.len(),
{
    if d.len() == 0 {
        0
    } else {
        digits_value(d.drop_last()) * 10 + (d.last() as int - '0' as int)
    }
}

/// What `str::parse::<i64>` gives: an optional `+` or `-`, then one or
/// more ASCII digits whose value fits in an `i64`; anything else is no
/// number.
pub open spec fn parsed_i64(s: Seq<char>) -> Option<i64> {
    let signed = s.len() > 0 && (s[0] == '-' || s[0] == '+');
    let d = if signed {
        s.drop_first()
    } else {
        s
    };
    let v = if s.len() > 0 && s[0] == '-' {
        -digits_value(d)
    } else {
        digits_value(d)
    };
    if d.len() == 0 || !all_digits(d) || v < i64::MIN || v > i64::MAX {
        None
    } else {
        Some(v as i64)
    }
}

proof fn lemma_digits_value_nonneg(d: Seq<char>)
    requires
        all_digits(d),
    ensures
        digits_value(d) >= 0,
    decreases d.len(),
{
    if d.len() > 0 {
        assert(all_digits(d.drop_last())) by {
            assert forall|i: int| 0 <= i < d.drop_last().len() implies is_digit(
                #[trigger] d.drop_last()[i],
            ) by {
                assert(d.drop_last()[i] == d[i]);
            }
        }
        lemma_digits_value_nonneg(d.drop_last());
        assert(is_digit(d[d.len() - 1]));
    }
}

/// Parses a signed decimal integer as `str::parse::<i64>` does.
pub fn parse_i64(v: &Vec<char>) -> (r: Option<i64>)
    ensures
        r == parsed_i64(v@),
{
    let n = v.len();
    if n == 0 {
        return None;
    }
    let start: usize = if v[0] == '-' || v[0] == '+' {
        1
    } else {
        0
    };
    let negative = v[0] == '-';
    let ghost d = if start == 1 {
        v@.drop_first()
    } else {
        v@
    };
    assert(d =~= v@.subrange(start as int, n as int));
    if start == n {
        return None;
    }
    // `acc` is the magnitude read so far while it is at most 2^63; past
    // that no `i64` can hold the number.
    let mut acc: u64 = 0;
    let mut over = false;
    let mut i: usize = start;
    assert(v@.subrange(start as int, start as int) =~= Seq::<char>::empty());
    while i < n
        invariant
            start <= i <= n,
            n == v@.len(),
            d == v@.subrange(start as int, n as int),
            d == (if v@.len() > 0 && (v@[0] == '-' || v@[0] == '+') {
                v@.drop_first()
            } else {
                v@
            }),
            all_digits(v@.subrange(start as int, i as int)),
            !over ==> acc == digits_value(v@.subrange(start as int, i as int)) && acc
                <= 9223372036854775808u64,
            over ==> digits_value(v@.subrange(start as int, i as int)) > 9223372036854775808,
        decreases n - i,
    {
        let c = v[i];
        let ghost before = v@.subrange(start as int, i as int);
        let ghost after = v@.subrange(start as int, i + 1);
        assert(after.drop_last() =~= before);
        assert(after.last() == c);
        if !('0' <= c && c <= '9') {
            proof {
                assert(d[i - start] == c);
                assert(!is_digit(d[i - start]));
                assert(!all_digits(d));
                assert(parsed_i64(v@) is None);
            }
            return None;
        }
        assert(all_digits(after)) by {
            assert forall|k: int| 0 <= k < after.len() implies is_digit(#[trigger] after[k]) by {
                if k < before.len() {
                    assert(after[k] == before[k]);
                }
            }
        }
        let digit: u64 = (c as u32 - '0' as u32) as u64;
        assert(digit == c as int - '0' as int);
        if !over {
            if acc > 922337203685477580u64 || (acc == 922337203685477580u64 && digit > 8) {
                over = true;
            } else {
                acc = acc * 10 + digit;
            }
        }
        i = i + 1;
    }
    assert(v@.subrange(start as int, n as int) =~= d);
    proof {
        lemma_digits_value_nonneg(d);
    }
    if over {
        None
    } else if negative {
        if acc == 9223372036854775808u64 {
            Some(i64::MIN)
        } else {
            Some(-(acc as i64))
        }
    } else if acc > 9223372036854775807u64 {
        None
    } else {
        Some(acc as i64)
    }
}

// ------------------------------------------------------------ stable sorting

/// Where `x` goes among the already sorted `s`: after every element it is
/// not less than.
pub open spec fn sorted_slot<A>(s: Seq<A>, x: A, lt: spec_fn(A, A) -> bool) -> int
    decreases s.len(),
{
    if s.len() == 0 {
        0
    } else if !lt(x, s.last()) {
        s.len() as int
    } else {
        sorted_slot(s.drop_last(), x, lt)
    }
}

/// `s` sorted by `lt`, equal elements kept in the order they came (the
/// order `sort_by` gives).
pub open spec fn sorted_by<A>(s: Seq<A>, lt: spec_fn(A, A) -> bool) -> Seq<A>
    decreases s.len(),
{
    if s.len() == 0 {
        seq![]
    } else {
        let t = sorted_by(s.drop_last(), lt);
        t.insert(sorted_slot(t, s.last(), lt), s.last())
    }
}

proof fn lemma_sorted_slot_bounds<A>(s: Seq<A>, x: A, lt: spec_fn(A, A) -> bool)
    ensures
        0 <= sorted_slot(s, x, lt) <= s.len(),
    decreases s.len(),
{
    if s.len() > 0 {
        lemma_sorted_slot_bounds(s.drop_last(), x, lt);
    }
}

proof fn lemma_sorted_by_len<A>(s: Seq<A>, lt: spec_fn(A, A) -> bool)
    ensures
        sorted_by(s, lt).len() == s.len(),
    decreases s.len(),
{
    if s.len() > 0 {
        lemma_sorted_by_len(s.drop_last(), lt);
        lemma_sorted_slot_bounds(sorted_by(s.drop_last(), lt), s.last(), lt);
    }
}

/// An order in which being not less is transitive, and less is never both
/// ways (a strict weak order).
pub open spec fn strict_weak_order<A>(lt: spec_fn(A, A) -> bool) -> bool {
    &&& forall|a: A, b: A| #[trigger] lt(a, b) ==> !lt(b, a)
    &&& forall|a: A, b: A, c: A| #![trigger lt(a, b), lt(b, c)] !lt(a, b) && !lt(b, c) ==> !lt(a, c)
}

/// No element is less than one before it.
pub open spec fn sorted_under<A>(s: Seq<A>, lt: spec_fn(A, A) -> bool) -> bool {
    forall|i: int, j: int| 0 <= i < j < s.len() ==> !lt(#[trigger] s[j], #[trigger] s[i])
}

proof fn lemma_sorted_slot<A>(t: Seq<A>, x: A, lt: spec_fn(A, A) -> bool)
    ensures
        forall|k: int| sorted_slot(t, x, lt) <= k < t.len() ==> lt(x, #[trigger] t[k]),
        sorted_slot(t, x, lt) > 0 ==> !lt(x, t[sorted_slot(t, x, lt) - 1]),
    decreases t.len(),
{
    lemma_sorted_slot_bounds(t, x, lt);
    if t.len() > 0 && lt(x, t.last()) {
        let u = t.drop_last();
        lemma_sorted_slot(u, x, lt);
        lemma_sorted_slot_bounds(u, x, lt);
        assert forall|k: int| sorted_slot(t, x, lt) <= k < t.len() implies lt(x, #[trigger] t[k]) by {
            if k < u.len() {
                assert(u[k] == t[k]);
            }
        }
        if sorted_slot(t, x, lt) > 0 {
            assert(u[sorted_slot(t, x, lt) - 1] == t[sorted_slot(t, x, lt) - 1]);
        }
    }
}

/// A stable sort by a strict weak order leaves no element less than one
/// before it.
pub proof fn sorted_by_is_sorted<A>(s: Seq<A>, lt: spec_fn(A, A) -> bool)
    requires
        strict_weak_order(lt),
    ensures
        sorted_under(sorted_by(s, lt), lt),
    decreases s.len(),
{
    if s.len() > 0 {
        let t = sorted_by(s.drop_last(), lt);
        sorted_by_is_sorted(s.drop_last(), lt);
        let x = s.last();
        let p = sorted_slot(t, x, lt);
        lemma_sorted_slot(t, x, lt);
        lemma_sorted_slot_bounds(t, x, lt);
        let u = t.insert(p, x);
        assert(u == sorted_by(s, lt));
        assert forall|i: int, j: int| 0 <= i < j < u.len() implies !lt(#[trigger] u[j], #[trigger] u[i]) by {
            if j < p {
                assert(u[i] == t[i] && u[j] == t[j]);
            } else if i > p {
                assert(u[i] == t[i - 1] && u[j] == t[j - 1]);
            } else if i == p {
                assert(u[i] == x && u[j] == t[j - 1]);
                assert(lt(x, t[j - 1]));
            } else if j == p {
                assert(u[i] == t[i] && u[j] == x);
                if i < p - 1 {
                    assert(!lt(t[p - 1], t[i]));
                }
                assert(!lt(x, t[p - 1]));
            } else {
                assert(u[i] == t[i] && u[j] == t[j - 1]);
            }
        }
    }
}

pub open spec fn views_of<A: View>(s: Seq<A>) -> Seq<A::V> {
    s.map_values(|a: A| a@)
}

/// Sorts by `less`, which decides `lt` on the views.
fn sort_by_view<A: View, F: Fn(&A, &A) -> bool>(
    items: Vec<A>,
    less: F,
    Ghost(lt): Ghost<spec_fn(A::V, A::V) -> bool>,
) -> (r: Vec<A>)
    requires
        forall|a: &A, b: &A| #[trigger] less.requires((a, b)),
        forall|a: &A, b: &A, x: bool| #[trigger] less.ensures((a, b), x) ==> x == lt(a@, b@),
    ensures
        views_of(r@) == sorted_by(views_of(items@), lt),
{
    let ghost all = views_of(items@);
    let mut sorted: Vec<A> = Vec::new();
    let mut rest = items;
    let ghost all_items = rest@;
    let n = rest.len();
    let mut i: usize = 0;
    while rest.len() > 0
        invariant
            n == all.len(),
            all == views_of(all_items),
            i + rest@.len() == n,
            rest@ == all_items.skip(i as int),
            views_of(sorted@) == sorted_by(all.take(i as int), lt),
            forall|a: &A, b: &A| #[trigger] less.requires((a, b)),
            forall|a: &A, b: &A, x: bool| #[trigger] less.ensures((a, b), x) ==> x == lt(a@, b@),
        decreases rest.len(),
    {
        let x = rest.remove(0);
        assert(x == all_items[i as int]);
        assert(all[i as int] == x@);
        let ghost sv = views_of(sorted@);
        let mut j = sorted.len();
        assert(sv.take(j as int) =~= sv);
        while j > 0 && less(&x, &sorted[j - 1])
            invariant
                j <= sorted.len(),
                sv == views_of(sorted@),
                sorted_slot(sv, x@, lt) == sorted_slot(sv.take(j as int), x@, lt),
                forall|a: &A, b: &A| #[trigger] less.requires((a, b)),
                forall|a: &A, b: &A, x: bool| #[trigger] less.ensures((a, b), x) ==> x == lt(
                    a@,
                    b@,
                ),
            decreases j,
        {
            assert(sv.take(j as int).drop_last() =~= sv.take(j - 1));
            assert(sv.take(j as int).last() == sorted@[j - 1]@);
            j = j - 1;
        }
        proof {
            if j > 0 {
                assert(sv.take(j as int).last() == sorted@[j - 1]@);
            }
            assert(all.take(i + 1).drop_last() =~= all.take(i as int));
            lemma_sorted_slot_bounds(sv, x@, lt);
        }
        sorted.insert(j, x);
        assert(views_of(sorted@) =~= sv.insert(j as int, x@));
        i = i + 1;
        assert(rest@ =~= all_items.skip(i as int));
    }
    assert(all.take(n as int) =~= all);
    sorted
}

// ------------------------------------------------------------ the parts

/// What the section reads of a runtime part row.
#[derive(Clone, Debug)]
pub struct SceneGroupPart {
    pub source_construction_id: String,
    pub runtime_part_id: i64,
    pub runtime_part_index: i64,
    pub full_display_name: String,
    pub display_name: String,
    pub asset_name: String,
}

/// A part as the section sees it: the construction it belongs to, its
/// runtime id and index, and its display name.
pub struct GroupPartView {
    pub construction: Seq<char>,
    pub part_id: i64,
    pub index: i64,
    pub name: Seq<char>,
}

pub open spec fn group_part_view(p: SceneGroupPart) -> GroupPartView {
    GroupPartView {
        construction: p.source_construction_id@,
        part_id: p.runtime_part_id,
        index: p.runtime_part_index,
        name: part_display_name(p.full_display_name@, p.display_name@, p.asset_name@),
    }
}

pub open spec fn part_views(parts: Seq<SceneGroupPart>) -> Seq<GroupPartView> {
    parts.map_values(|p: SceneGroupPart| group_part_view(p))
}

struct GroupMember {
    construction: Vec<char>,
    part_id: i64,
    index: i64,
    name: Vec<char>,
}

impl View for GroupMember {
    type V = GroupPartView;

    closed spec fn view(&self) -> GroupPartView {
        GroupPartView {
            construction: self.construction@,
            part_id: self.part_id,
            index: self.index,
            name: self.name@,
        }
    }
}

/// A row of a group's inventory: a part name and the references of the
/// parts with that name.
struct InventoryRow {
    name: Vec<char>,
    refs: Vec<Vec<char>>,
}

impl View for InventoryRow {
    type V = (Seq<char>, Seq<Seq<char>>);

    closed spec fn view(&self) -> (Seq<char>, Seq<Seq<char>>) {
        (self.name@, views(self.refs@))
    }
}

// ------------------------------------------------------------ the groups

/// A part belongs to a group when its construction id is not blank.
pub open spec fn grouped(p: GroupPartView) -> bool {
    trim(p.construction).len() > 0
}

/// The construction ids of the grouped parts, each once, in the order
/// first seen.
pub open spec fn construction_ids(parts: Seq<GroupPartView>) -> Seq<Seq<char>>
    decreases parts.len(),
{
    if parts.len() == 0 {
        seq![]
    } else {
        let ids = construction_ids(parts.drop_last());
        let p = parts.last();
        if grouped(p) && !ids.contains(p.construction) {
            ids.push(p.construction)
        } else {
            ids
        }
    }
}

/// The parts of one construction, in the order given.
pub open spec fn members_of(parts: Seq<GroupPartView>, id: Seq<char>) -> Seq<GroupPartView>
    decreases parts.len(),
{
    if parts.len() == 0 {
        seq![]
    } else {
        let m = members_of(parts.drop_last(), id);
        if parts.last().construction == id {
            m.push(parts.last())
        } else {
            m
        }
    }
}

pub open spec fn option_lt(a: Option<i64>, b: Option<i64>) -> bool {
    match (a, b) {
        (None, Some(_)) => true,
        (Some(x), Some(y)) => x < y,
        _ => false,
    }
}

/// The order of groups: by the id read as an integer (ids that are no
/// integer first), then by the id's text.
pub open spec fn group_id_lt(a: Seq<char>, b: Seq<char>) -> bool {
    option_lt(parsed_i64(a), parsed_i64(b)) || (parsed_i64(a) == parsed_i64(b) && seq_lt(a, b))
}

/// The order of parts within a group: by runtime index, then runtime id,
/// then name.
pub open spec fn member_lt(a: GroupPartView, b: GroupPartView) -> bool {
    a.index < b.index || (a.index == b.index && (a.part_id < b.part_id || (a.part_id == b.part_id
        && seq_lt(a.name, b.name))))
}

/// The order of inventory rows: more parts first, then by name.
pub open spec fn row_lt(a: (Seq<char>, Seq<Seq<char>>), b: (Seq<char>, Seq<Seq<char>>)) -> bool {
    a.1.len() > b.1.len() || (a.1.len() == b.1.len() && seq_lt(a.0, b.0))
}

pub open spec fn by_group_id() -> spec_fn(Seq<char>, Seq<char>) -> bool {
    |a: Seq<char>, b: Seq<char>| group_id_lt(a, b)
}

pub open spec fn by_member() -> spec_fn(GroupPartView, GroupPartView) -> bool {
    |a: GroupPartView, b: GroupPartView| member_lt(a, b)
}

pub open spec fn by_row() -> spec_fn((Seq<char>, Seq<Seq<char>>), (Seq<char>, Seq<Seq<char>>)) -> bool {
    |a: (Seq<char>, Seq<Seq<char>>), b: (Seq<char>, Seq<Seq<char>>)| row_lt(a, b)
}

/// How a part is referred to within its group.
pub open spec fn member_ref(p: GroupPartView) -> Seq<char> {
    "#"@ + signed_decimal(p.part_id as int) + " idx "@ + signed_decimal(p.index as int)
}

/// The first row at or after `i` with the given name.
pub open spec fn row_index(rows: Seq<(Seq<char>, Seq<Seq<char>>)>, name: Seq<char>, i: int) -> Option<
    int,
>
    decreases rows.len() - i,
{
    if i < 0 || i >= rows.len() {
        None
    } else if rows[i].0 == name {
        Some(i)
    } else {
        row_index(rows, name, i + 1)
    }
}

/// A group's parts by name: one row per name, in the order the names are
/// first seen, with the references of the parts of that name in order.
pub open spec fn inventory(ms: Seq<GroupPartView>) -> Seq<(Seq<char>, Seq<Seq<char>>)>
    decreases ms.len(),
{
    if ms.len() == 0 {
        seq![]
    } else {
        let rows = inventory(ms.drop_last());
        let p = ms.last();
        match row_index(rows, p.name, 0) {
            Some(j) => rows.update(j, (p.name, rows[j].1.push(member_ref(p)))),
            None => rows.push((p.name, seq![member_ref(p)])),
        }
    }
}

/// The groups of a scene: each construction id once, none blank, and every
/// grouped part's construction among them.
pub proof fn construction_ids_name_each_group_once(parts: Seq<GroupPartView>)
    ensures
        forall|i: int, j: int|
            0 <= i < j < construction_ids(parts).len() ==> construction_ids(parts)[i]
                != construction_ids(parts)[j],
        forall|i: int|
            0 <= i < construction_ids(parts).len() ==> trim(
                #[trigger] construction_ids(parts)[i],
            ).len() > 0,
        forall|k: int|
            0 <= k < parts.len() && grouped(#[trigger] parts[k]) ==> construction_ids(
                parts,
            ).contains(parts[k].construction),
    decreases parts.len(),
{
    if parts.len() > 0 {
        let prefix = parts.drop_last();
        construction_ids_name_each_group_once(prefix);
        let ids = construction_ids(prefix);
        let p = parts.last();
        assert forall|k: int| 0 <= k < parts.len() && grouped(#[trigger] parts[k]) implies construction_ids(
            parts,
        ).contains(parts[k].construction) by {
            if k < prefix.len() {
                assert(prefix[k] == parts[k]);
                assert(ids.contains(parts[k].construction));
                let w = choose|w: int| 0 <= w < ids.len() && ids[w] == parts[k].construction;
                if grouped(p) && !ids.contains(p.construction) {
                    assert(ids.push(p.construction)[w] == ids[w]);
                }
            } else {
                if !ids.contains(p.construction) {
                    assert(ids.push(p.construction)[ids.len() as int] == p.construction);
                }
            }
        }
    }
}

/// The first `n` elements, or all of them when there are fewer.
pub open spec fn at_most<A>(s: Seq<A>, n: int) -> Seq<A> {
    if s.len() <= n {
        s
    } else {
        s.take(n)
    }
}

/// An inventory row: the name, the count, and up to 24 references, with a
/// note of how many more there are.
pub open spec fn row_text(row: (Seq<char>, Seq<Seq<char>>)) -> Seq<char> {
    let count = row.1.len();
    let more = if count > 24 {
        ", ... "@ + decimal((count - 24) as nat) + " more"@
    } else {
        seq![]
    };
    row.0 + " x"@ + decimal(count) + " ["@ + join(at_most(row.1, 24), ", "@) + more + "]"@
}

/// A group's line: its id, its part count and its ten largest inventory
/// rows.
pub open spec fn group_line(parts: Seq<GroupPartView>, id: Seq<char>) -> Seq<char> {
    let ms = sorted_by(members_of(parts, id), by_member());
    let rows = sorted_by(inventory(ms), by_row());
    "- construction "@ + id + ": "@ + decimal(ms.len()) + " part(s); "@ + join(
        at_most(rows, 10).map_values(|r: (Seq<char>, Seq<Seq<char>>)| row_text(r)),
        "; "@,
    )
}

pub const NO_CONSTRUCTION_GROUPS: &'static str = "## Runtime Construction Groups\nNo parent construction groups were exposed in the latest runtime scene rows.";

pub const CONSTRUCTION_GROUPS_HEADER: &'static str = "## Runtime Construction Groups\nUse this section to reason about parts that are attached into the same GearBlocks construction. Part `#id` values can repeat across different parent constructions, so disambiguate with construction id, index, part key, instance key, and coordinates before saying a part is missing.";

/// The section: a line for each of the first 120 groups in group order.
pub open spec fn construction_groups_text(parts: Seq<GroupPartView>) -> Seq<char> {
    let ids = construction_ids(parts);
    if ids.len() == 0 {
        NO_CONSTRUCTION_GROUPS@
    } else {
        CONSTRUCTION_GROUPS_HEADER@ + "\n"@ + join(
            at_most(sorted_by(ids, by_group_id()), 120).map_values(
                |id: Seq<char>| group_line(parts, id),
            ),
            "\n"@,
        )
    }
}

// ------------------------------------------------------------ building it

fn copy_chars(v: &Vec<char>) -> (r: Vec<char>)
    ensures
        r@ == v@,
{
    let r = slice_of(v, 0, v.len());
    assert(v@.subrange(0, v@.len() as int) =~= v@);
    r
}

fn member_of(p: &SceneGroupPart) -> (m: GroupMember)
    ensures
        m@ == group_part_view(*p),
{
    let name = part_name(
        p.full_display_name.as_str(),
        p.display_name.as_str(),
        p.asset_name.as_str(),
    );
    GroupMember {
        construction: chars_of(p.source_construction_id.as_str()),
        part_id: p.runtime_part_id,
        index: p.runtime_part_index,
        name: chars_of(name.as_str()),
    }
}

fn copy_member(m: &GroupMember) -> (r: GroupMember)
    ensures
        r@ == m@,
{
    GroupMember {
        construction: copy_chars(&m.construction),
        part_id: m.part_id,
        index: m.index,
        name: copy_chars(&m.name),
    }
}

fn members(parts: &Vec<SceneGroupPart>) -> (r: Vec<GroupMember>)
    ensures
        views_of(r@) == part_views(parts@),
{
    let mut r: Vec<GroupMember> = Vec::new();
    let mut i: usize = 0;
    while i < parts.len()
        invariant
            i <= parts.len(),
            views_of(r@) == part_views(parts@).take(i as int),
        decreases parts.len() - i,
    {
        let m = member_of(&parts[i]);
        let ghost before = r@;
        r.push(m);
        assert(views_of(r@) =~= views_of(before).push(m@));
        assert(part_views(parts@).take(i + 1) =~= part_views(parts@).take(i as int).push(
            group_part_view(parts@[i as int]),
        ));
        i = i + 1;
    }
    assert(part_views(parts@).take(parts.len() as int) =~= part_views(parts@));
    r
}

fn id_listed(ids: &Vec<Vec<char>>, x: &Vec<char>) -> (r: bool)
    ensures
        r == views_of(ids@).contains(x@),
{
    let mut i: usize = 0;
    while i < ids.len()
        invariant
            i <= ids.len(),
            forall|k: int| 0 <= k < i ==> ids@[k]@ != x@,
        decreases ids.len() - i,
    {
        if chars_eq(&ids[i], x) {
            assert(views_of(ids@)[i as int] == x@);
            return true;
        }
        i = i + 1;
    }
    assert forall|k: int| 0 <= k < views_of(ids@).len() implies views_of(ids@)[k] != x@ by {
        assert(ids@[k]@ != x@);
    }
    false
}

fn construction_id_list(ms: &Vec<GroupMember>) -> (r: Vec<Vec<char>>)
    ensures
        views_of(r@) == construction_ids(views_of(ms@)),
{
    let ghost all = views_of(ms@);
    let mut ids: Vec<Vec<char>> = Vec::new();
    let mut i: usize = 0;
    while i < ms.len()
        invariant
            i <= ms.len(),
            all == views_of(ms@),
            views_of(ids@) == construction_ids(all.take(i as int)),
        decreases ms.len() - i,
    {
        assert(all.take(i + 1).drop_last() =~= all.take(i as int));
        assert(all.take(i + 1).last() == ms@[i as int]@);
        let c = &ms[i].construction;
        if trim_chars(c).len() > 0 && !id_listed(&ids, c) {
            let ghost before = ids@;
            ids.push(copy_chars(c));
            assert(views_of(ids@) =~= views_of(before).push(c@));
        }
        i = i + 1;
    }
    assert(all.take(ms.len() as int) =~= all);
    ids
}

fn members_in(ms: &Vec<GroupMember>, id: &Vec<char>) -> (r: Vec<GroupMember>)
    ensures
        views_of(r@) == members_of(views_of(ms@), id@),
{
    let ghost all = views_of(ms@);
    let mut r: Vec<GroupMember> = Vec::new();
    let mut i: usize = 0;
    while i < ms.len()
        invariant
            i <= ms.len(),
            all == views_of(ms@),
            views_of(r@) == members_of(all.take(i as int), id@),
        decreases ms.len() - i,
    {
        assert(all.take(i + 1).drop_last() =~= all.take(i as int));
        assert(all.take(i + 1).last() == ms@[i as int]@);
        if chars_eq(&ms[i].construction, id) {
            let m = copy_member(&ms[i]);
            let ghost before = r@;
            r.push(m);
            assert(views_of(r@) =~= views_of(before).push(m@));
        }
        i = i + 1;
    }
    assert(all.take(ms.len() as int) =~= all);
    r
}

fn option_lt_exec(a: Option<i64>, b: Option<i64>) -> (r: bool)
    ensures
        r == option_lt(a, b),
{
    match (a, b) {
        (None, Some(_)) => true,
        (Some(x), Some(y)) => x < y,
        _ => false,
    }
}

fn group_id_less(a: &Vec<char>, b: &Vec<char>) -> (r: bool)
    ensures
        r == group_id_lt(a@, b@),
{
    let x = parse_i64(a);
    let y = parse_i64(b);
    option_lt_exec(x, y) || (x == y && chars_lt(a, b))
}

fn member_less(a: &GroupMember, b: &GroupMember) -> (r: bool)
    ensures
        r == member_lt(a@, b@),
{
    a.index < b.index || (a.index == b.index && (a.part_id < b.part_id || (a.part_id == b.part_id
        && chars_lt(&a.name, &b.name))))
}

fn row_less(a: &InventoryRow, b: &InventoryRow) -> (r: bool)
    ensures
        r == row_lt(a@, b@),
{
    a.refs.len() > b.refs.len() || (a.refs.len() == b.refs.len() && chars_lt(&a.name, &b.name))
}

proof fn lemma_row_index_bounds(rows: Seq<(Seq<char>, Seq<Seq<char>>)>, name: Seq<char>, i: int)
    ensures
        row_index(rows, name, i) matches Some(j) ==> i <= j < rows.len() && rows[j].0 == name,
    decreases rows.len() - i,
{
    if 0 <= i < rows.len() && rows[i].0 != name {
        lemma_row_index_bounds(rows, name, i + 1);
    }
}

fn row_position(rows: &Vec<InventoryRow>, name: &Vec<char>) -> (r: Option<usize>)
    ensures
        r matches Some(j) ==> row_index(views_of(rows@), name@, 0) == Some(j as int),
        r is None ==> row_index(views_of(rows@), name@, 0) is None,
{
    let ghost v = views_of(rows@);
    let mut i: usize = 0;
    while i < rows.len()
        invariant
            i <= rows.len(),
            v == views_of(rows@),
            row_index(v, name@, 0) == row_index(v, name@, i as int),
        decreases rows.len() - i,
    {
        assert(v[i as int] == rows@[i as int]@);
        if chars_eq(&rows[i].name, name) {
            return Some(i);
        }
        i = i + 1;
    }
    None
}

fn member_ref_text(m: &GroupMember) -> (r: Vec<char>)
    ensures
        r@ == member_ref(m@),
{
    let mut out = chars_of("#");
    extend_chars(&mut out, &i64_to_decimal(m.part_id));
    extend_str(&mut out, " idx ");
    extend_chars(&mut out, &i64_to_decimal(m.index));
    out
}

fn inventory_of(ms: &Vec<GroupMember>) -> (r: Vec<InventoryRow>)
    ensures
        views_of(r@) == inventory(views_of(ms@)),
{
    let ghost all = views_of(ms@);
    let mut rows: Vec<InventoryRow> = Vec::new();
    let mut i: usize = 0;
    while i < ms.len()
        invariant
            i <= ms.len(),
            all == views_of(ms@),
            views_of(rows@) == inventory(all.take(i as int)),
        decreases ms.len() - i,
    {
        let ghost p = ms@[i as int]@;
        assert(all.take(i + 1).drop_last() =~= all.take(i as int));
        assert(all.take(i + 1).last() == p);
        let ghost v = views_of(rows@);
        let reference = member_ref_text(&ms[i]);
        match row_position(&rows, &ms[i].name) {
            Some(j) => {
                proof {
                    lemma_row_index_bounds(v, p.name, 0);
                }
                let ghost before = rows@;
                let mut row = rows.remove(j);
                assert(row@ == v[j as int]);
                let ghost old_refs = row.refs@;
                row.refs.push(reference);
                assert(views(row.refs@) =~= views(old_refs).push(member_ref(p)));
                rows.insert(j, row);
                assert(rows@ =~= before.update(j as int, row));
                assert(views_of(rows@) =~= v.update(j as int, (p.name, v[j as int].1.push(member_ref(p)))));
            },
            None => {
                let mut refs: Vec<Vec<char>> = Vec::new();
                refs.push(reference);
                let row = InventoryRow { name: copy_chars(&ms[i].name), refs };
                assert(views(row.refs@) =~= seq![member_ref(p)]);
                let ghost before = rows@;
                rows.push(row);
                assert(views_of(rows@) =~= v.push((p.name, seq![member_ref(p)])));
            },
        }
        i = i + 1;
    }
    assert(all.take(ms.len() as int) =~= all);
    rows
}

/// The first `n` of the texts, copied.
fn first_texts(v: &Vec<Vec<char>>, n: usize) -> (r: Vec<Vec<char>>)
    ensures
        views(r@) == at_most(views(v@), n as int),
{
    let m = if v.len() <= n {
        v.len()
    } else {
        n
    };
    let mut r: Vec<Vec<char>> = Vec::new();
    let mut i: usize = 0;
    while i < m
        invariant
            i <= m <= v.len(),
            views(r@) == views(v@).take(i as int),
        decreases m - i,
    {
        let ghost before = r@;
        r.push(copy_chars(&v[i]));
        assert(views(r@) =~= views(before).push(v@[i as int]@));
        assert(views(v@).take(i + 1) =~= views(v@).take(i as int).push(v@[i as int]@));
        i = i + 1;
    }
    assert(views(v@).take(v.len() as int) =~= views(v@));
    r
}

fn row_line(row: &InventoryRow) -> (r: Vec<char>)
    ensures
        r@ == row_text(row@),
{
    let count = row.refs.len();
    let mut out = copy_chars(&row.name);
    extend_str(&mut out, " x");
    extend_chars(&mut out, &u64_to_decimal(count as u64));
    extend_str(&mut out, " [");
    let shown = first_texts(&row.refs, 24);
    extend_chars(&mut out, &join_chars(&shown, &chars_of(", ")));
    if count > 24 {
        extend_str(&mut out, ", ... ");
        extend_chars(&mut out, &u64_to_decimal((count - 24) as u64));
        extend_str(&mut out, " more");
    }
    extend_str(&mut out, "]");
    out
}

fn group_text(all: &Vec<GroupMember>, id: &Vec<char>) -> (r: Vec<char>)
    ensures
        r@ == group_line(views_of(all@), id@),
{
    let group = members_in(all, id);
    let ordered = sort_by_view(
        group,
        member_less,
        Ghost(by_member()),
    );
    let rows = inventory_of(&ordered);
    let rows = sort_by_view(
        rows,
        row_less,
        Ghost(by_row()),
    );
    let ghost rv = views_of(rows@);
    let m = if rows.len() <= 10 {
        rows.len()
    } else {
        10
    };
    let mut texts: Vec<Vec<char>> = Vec::new();
    let mut i: usize = 0;
    while i < m
        invariant
            i <= m <= rows.len(),
            rv == views_of(rows@),
            views(texts@) == rv.take(i as int).map_values(
                |r: (Seq<char>, Seq<Seq<char>>)| row_text(r),
            ),
        decreases m - i,
    {
        let t = row_line(&rows[i]);
        let ghost before = texts@;
        texts.push(t);
        assert(views(texts@) =~= views(before).push(row_text(rv[i as int])));
        assert(rv.take(i + 1).map_values(|r: (Seq<char>, Seq<Seq<char>>)| row_text(r))
            =~= rv.take(i as int).map_values(|r: (Seq<char>, Seq<Seq<char>>)| row_text(r)).push(
            row_text(rv[i as int]),
        ));
        i = i + 1;
    }
    assert(rv.take(m as int) =~= at_most(rv, 10));
    let mut out = chars_of("- construction ");
    extend_chars(&mut out, id);
    extend_str(&mut out, ": ");
    extend_chars(&mut out, &u64_to_decimal(ordered.len() as u64));
    extend_str(&mut out, " part(s); ");
    extend_chars(&mut out, &join_chars(&texts, &chars_of("; ")));
    out
}

/// The construction-groups section of the scene context for the given
/// runtime parts.
pub fn construction_groups_section(parts: &Vec<SceneGroupPart>) -> (r: String)
    ensures
        r@ == construction_groups_text(part_views(parts@)),
{
    let all = members(parts);
    let ids = construction_id_list(&all);
    if ids.len() == 0 {
        return String::from_str(NO_CONSTRUCTION_GROUPS);
    }
    let ordered = sort_by_view(
        ids,
        group_id_less,
        Ghost(by_group_id()),
    );
    let ghost ov = views_of(ordered@);
    let ghost pv = part_views(parts@);
    let m = if ordered.len() <= 120 {
        ordered.len()
    } else {
        120
    };
    let mut lines: Vec<Vec<char>> = Vec::new();
    let mut i: usize = 0;
    while i < m
        invariant
            i <= m <= ordered.len(),
            ov == views_of(ordered@),
            pv == views_of(all@),
            views(lines@) == ov.take(i as int).map_values(|id: Seq<char>| group_line(pv, id)),
        decreases m - i,
    {
        let line = group_text(&all, &ordered[i]);
        let ghost before = lines@;
        lines.push(line);
        assert(views(lines@) =~= views(before).push(group_line(pv, ov[i as int])));
        assert(ov.take(i + 1).map_values(|id: Seq<char>| group_line(pv, id)) =~= ov.take(
            i as int,
        ).map_values(|id: Seq<char>| group_line(pv, id)).push(group_line(pv, ov[i as int])));
        i = i + 1;
    }
    assert(ov.take(m as int) =~= at_most(ov, 120));
    let mut out = chars_of(CONSTRUCTION_GROUPS_HEADER);
    extend_str(&mut out, "\n");
    extend_chars(&mut out, &join_chars(&lines, &chars_of("\n")));
    string_of(&out)
}

// ------------------------------------------------------------ inventories

/// What an inventory reads of a classified part: its system, its name and
/// whether it is structural.
#[derive(Clone, Debug)]
pub struct SceneInventoryPart {
    pub system: String,
    pub name: String,
    pub is_structural: bool,
}

/// The inventory key of a part: its system and its name.
pub open spec fn inventory_key(p: SceneInventoryPart) -> Seq<char> {
    p.system@ + " | "@ + p.name@
}

/// Whether a part is counted: structural parts in the structural inventory,
/// the others in the functional one.
pub open spec fn counted(p: SceneInventoryPart, structural_only: bool) -> bool {
    p.is_structural == structural_only
}

/// The keys of the counted parts, each once, in the order first seen.
pub open spec fn inventory_keys(parts: Seq<SceneInventoryPart>, structural_only: bool) -> Seq<Seq<char>>
    decreases parts.len(),
{
    if parts.len() == 0 {
        seq![]
    } else {
        let keys = inventory_keys(parts.drop_last(), structural_only);
        let p = parts.last();
        if counted(p, structural_only) && !keys.contains(inventory_key(p)) {
            keys.push(inventory_key(p))
        } else {
            keys
        }
    }
}

/// How many counted parts have the key.
pub open spec fn key_count(parts: Seq<SceneInventoryPart>, structural_only: bool, key: Seq<char>) -> nat
    decreases parts.len(),
{
    if parts.len() == 0 {
        0
    } else {
        let p = parts.last();
        key_count(parts.drop_last(), structural_only, key) + if counted(p, structural_only)
            && inventory_key(p) == key {
            1nat
        } else {
            0nat
        }
    }
}

pub open spec fn by_text() -> spec_fn(Seq<char>, Seq<char>) -> bool {
    |a: Seq<char>, b: Seq<char>| seq_lt(a, b)
}

/// An inventory section: the first 80 keys in text order, each with its
/// count.
pub open spec fn inventory_text(title: Seq<char>, parts: Seq<SceneInventoryPart>, structural_only: bool) -> Seq<
    char,
> {
    let keys = inventory_keys(parts, structural_only);
    if keys.len() == 0 {
        "## "@ + title + "\nNo matching parts identified."@
    } else {
        "## "@ + title + "\n"@ + join(
            at_most(sorted_by(keys, by_text()), 80).map_values(
                |k: Seq<char>| "- "@ + k + " x"@ + decimal(key_count(parts, structural_only, k)),
            ),
            "\n"@,
        )
    }
}

fn text_less(a: &Vec<char>, b: &Vec<char>) -> (r: bool)
    ensures
        r == seq_lt(a@, b@),
{
    chars_lt(a, b)
}

fn key_of(p: &SceneInventoryPart) -> (r: Vec<char>)
    ensures
        r@ == inventory_key(*p),
{
    let mut k = chars_of(p.system.as_str());
    extend_str(&mut k, " | ");
    extend_str(&mut k, p.name.as_str());
    k
}

fn count_key(parts: &Vec<SceneInventoryPart>, structural_only: bool, key: &Vec<char>) -> (r: usize)
    ensures
        r == key_count(parts@, structural_only, key@),
{
    let mut n: usize = 0;
    let mut i: usize = 0;
    while i < parts.len()
        invariant
            i <= parts.len(),
            n <= i,
            n == key_count(parts@.take(i as int), structural_only, key@),
        decreases parts.len() - i,
    {
        assert(parts@.take(i + 1).drop_last() =~= parts@.take(i as int));
        if parts[i].is_structural == structural_only && chars_eq(&key_of(&parts[i]), key) {
            n = n + 1;
        }
        i = i + 1;
    }
    assert(parts@.take(parts.len() as int) =~= parts@);
    n
}

fn inventory_key_list(parts: &Vec<SceneInventoryPart>, structural_only: bool) -> (r: Vec<Vec<char>>)
    ensures
        views_of(r@) == inventory_keys(parts@, structural_only),
{
    let mut keys: Vec<Vec<char>> = Vec::new();
    let mut i: usize = 0;
    while i < parts.len()
        invariant
            i <= parts.len(),
            views_of(keys@) == inventory_keys(parts@.take(i as int), structural_only),
        decreases parts.len() - i,
    {
        assert(parts@.take(i + 1).drop_last() =~= parts@.take(i as int));
        if parts[i].is_structural == structural_only {
            let k = key_of(&parts[i]);
            if !id_listed(&keys, &k) {
                let ghost before = keys@;
                keys.push(k);
                assert(views_of(keys@) =~= views_of(before).push(inventory_key(parts@[i as int])));
            }
        }
        i = i + 1;
    }
    assert(parts@.take(parts.len() as int) =~= parts@);
    keys
}

/// An inventory section of the scene context: the parts counted by system
/// and name, structural or not as asked.
pub fn inventory_section(title: &str, parts: &Vec<SceneInventoryPart>, structural_only: bool) -> (r:
    String)
    ensures
        r@ == inventory_text(title@, parts@, structural_only),
{
    let keys = inventory_key_list(parts, structural_only);
    let mut out = chars_of("## ");
    extend_str(&mut out, title);
    if keys.len() == 0 {
        extend_str(&mut out, "\nNo matching parts identified.");
        return string_of(&out);
    }
    let ordered = sort_by_view(keys, text_less, Ghost(by_text()));
    let ghost ov = views_of(ordered@);
    let ghost line_of = |k: Seq<char>| "- "@ + k + " x"@ + decimal(key_count(parts@, structural_only, k));
    let m = if ordered.len() <= 80 {
        ordered.len()
    } else {
        80
    };
    let mut lines: Vec<Vec<char>> = Vec::new();
    let mut i: usize = 0;
    while i < m
        invariant
            i <= m <= ordered.len(),
            ov == views_of(ordered@),
            line_of == (|k: Seq<char>| "- "@ + k + " x"@ + decimal(key_count(parts@, structural_only, k))),
            views(lines@) == ov.take(i as int).map_values(line_of),
        decreases m - i,
    {
        let mut line = chars_of("- ");
        extend_chars(&mut line, &ordered[i]);
        extend_str(&mut line, " x");
        let c = count_key(parts, structural_only, &ordered[i]);
        extend_chars(&mut line, &u64_to_decimal(c as u64));
        let ghost before = lines@;
        lines.push(line);
        assert(views(lines@) =~= views(before).push(line_of(ov[i as int])));
        assert(ov.take(i + 1).map_values(line_of) =~= ov.take(i as int).map_values(line_of).push(
            line_of(ov[i as int]),
        ));
        i = i + 1;
    }
    assert(ov.take(m as int) =~= at_most(ov, 80));
    extend_str(&mut out, "\n");
    extend_chars(&mut out, &join_chars(&lines, &chars_of("\n")));
    string_of(&out)
}

// ------------------------------------------------------------ the orders

proof fn lemma_text_order(a: Seq<char>, b: Seq<char>, c: Seq<char>)
    ensures
        seq_lt(a, b) ==> !seq_lt(b, a),
        !seq_lt(a, b) && !seq_lt(b, c) ==> !seq_lt(a, c),
{
    lemma_seq_lt_total(a, b);
    lemma_seq_lt_total(b, c);
    lemma_seq_lt_irreflexive(a);
    if seq_lt(a, b) {
        lemma_seq_lt_asymmetric(a, b);
    }
    if !seq_lt(a, b) && !seq_lt(b, c) && seq_lt(a, c) {
        lemma_seq_lt_asymmetric(a, c);
        if seq_lt(b, a) && seq_lt(c, b) {
            lemma_seq_lt_transitive(c, b, a);
        }
    }
}

/// Text order is a strict weak order.
pub proof fn text_order_is_strict_weak()
    ensures
        strict_weak_order(by_text()),
{
    assert forall|a: Seq<char>, b: Seq<char>| #[trigger] by_text()(a, b) implies !by_text()(b, a) by {
        lemma_text_order(a, b, a);
    }
    assert forall|a: Seq<char>, b: Seq<char>, c: Seq<char>| #![trigger by_text()(a, b), by_text()(b, c)] !by_text()(a, b) && !by_text()(b, c) implies !by_text()(
        a,
        c,
    ) by {
        lemma_text_order(a, b, c);
    }
}

/// The group order is a strict weak order.
pub proof fn group_order_is_strict_weak()
    ensures
        strict_weak_order(by_group_id()),
{
    assert forall|a: Seq<char>, b: Seq<char>| #[trigger] by_group_id()(a, b) implies !by_group_id()(b, a) by {
        lemma_text_order(a, b, a);
    }
    assert forall|a: Seq<char>, b: Seq<char>, c: Seq<char>| #![trigger by_group_id()(a, b), by_group_id()(b, c)] !by_group_id()(a, b) && !by_group_id()(b, c) implies !by_group_id()(
        a,
        c,
    ) by {
        lemma_text_order(a, b, c);
        lemma_text_order(a, c, b);
    }
}

/// The order of parts within a group is a strict weak order.
pub proof fn member_order_is_strict_weak()
    ensures
        strict_weak_order(by_member()),
{
    assert forall|a: GroupPartView, b: GroupPartView| #[trigger] by_member()(a, b) implies !by_member()(b, a) by {
        lemma_text_order(a.name, b.name, a.name);
    }
    assert forall|a: GroupPartView, b: GroupPartView, c: GroupPartView| #![trigger by_member()(a, b), by_member()(b, c)] !by_member()(a, b) && !by_member()(b, c) implies !by_member()(
        a,
        c,
    ) by {
        lemma_text_order(a.name, b.name, c.name);
    }
}

/// The order of inventory rows is a strict weak order.
pub proof fn row_order_is_strict_weak()
    ensures
        strict_weak_order(by_row()),
{
    assert forall|a: (Seq<char>, Seq<Seq<char>>), b: (Seq<char>, Seq<Seq<char>>)| #[trigger] by_row()(a, b) implies !by_row()(
        b,
        a,
    ) by {
        lemma_text_order(a.0, b.0, a.0);
    }
    assert forall|a: (Seq<char>, Seq<Seq<char>>), b: (Seq<char>, Seq<Seq<char>>), c: (Seq<char>, Seq<Seq<char>>)| #![trigger by_row()(a, b), by_row()(b, c)] !by_row()(a, b) && !by_row()(b, c) implies !by_row()(
        a,
        c,
    ) by {
        lemma_text_order(a.0, b.0, c.0);
    }
}

/// The construction groups are listed in group order; within a group, the
/// parts are in part order and the inventory rows in row order (more parts
/// first).
pub proof fn construction_groups_are_listed_in_order(parts: Seq<GroupPartView>, id: Seq<char>)
    ensures
        sorted_under(sorted_by(construction_ids(parts), by_group_id()), by_group_id()),
        sorted_under(sorted_by(members_of(parts, id), by_member()), by_member()),
        sorted_under(
            sorted_by(inventory(sorted_by(members_of(parts, id), by_member())), by_row()),
            by_row(),
        ),
{
    group_order_is_strict_weak();
    member_order_is_strict_weak();
    row_order_is_strict_weak();
    sorted_by_is_sorted(construction_ids(parts), by_group_id());
    sorted_by_is_sorted(members_of(parts, id), by_member());
    sorted_by_is_sorted(inventory(sorted_by(members_of(parts, id), by_member())), by_row());
}

/// An inventory section lists its keys in text order.
pub proof fn inventory_keys_are_listed_in_order(parts: Seq<SceneInventoryPart>, structural_only: bool)
    ensures
        sorted_under(sorted_by(inventory_keys(parts, structural_only), by_text()), by_text()),
{
    text_order_is_strict_weak();
    sorted_by_is_sorted(inventory_keys(parts, structural_only), by_text());
}

} // verus!
