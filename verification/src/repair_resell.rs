//! Repair-and-resell listings: reading candidate listings out of a public
//! auction page, the drafts that manual imports and refreshes store, and the
//! outcome that a refresh run records.
use crate::markup::{before, before_chars, find_in};
use crate::text::{
    chars_of, contains, contains_str, digit_char, digit_to_char, extend_chars, find, find_from_exec, lemma_find_from, lemma_find_skip, slice_of, squeeze_ws, squeeze_ws_chars,
    starts_with, starts_with_str, string_of, to_lowercase_chars, trim, trim_chars, trim_str,
    unicode_lowercase, is_ascii_seq, lower_ascii, utf8_len, utf8_len_capped, replace_all, replace_str, chars_eq, owned,
};
use std::collections::hash_map::DefaultHasher;
use std::hash::{Hash, Hasher};
use vstd::prelude::*;

verus! {

/// A refresh keeps at most this many listings from one page.
pub const MAX_REFRESH_LISTINGS: usize = 25;

// ------------------------------------------------------------ content hashes

/// A hexadecimal digit, lower case.
pub open spec fn hex_digit(d: int) -> char {
    if d < 10 {
        digit_char(d)
    } else {
        ((d + 87) as u32) as char
    }
}

/// Lower-case hexadecimal digits of `n` without leading zeros, as `{:x}`
/// writes an unsigned integer.
pub open spec fn hex_text(n: nat) -> Seq<char>
    decreases n,
{
    if n < 16 {
        seq![hex_digit(n as int)]
    } else {
        hex_text(n / 16).push(hex_digit((n % 16) as int))
    }
}

fn hex_digit_char(d: u64) -> (c: char)
    requires
        d < 16,
    ensures
        c == hex_digit(d as int),
{
    if d < 10 {
        digit_to_char(d)
    } else {
        let b = d as u8 + 87;
        b as char
    }
}

pub fn u64_to_hex(n: u64) -> (r: Vec<char>)
    ensures
        r@ == hex_text(n as nat),
    decreases n,
{
    if n < 16 {
        let mut r: Vec<char> = Vec::new();
        r.push(hex_digit_char(n));
        r
    } else {
        let mut r = u64_to_hex(n / 16);
        r.push(hex_digit_char(n % 16));
        r
    }
}

/// The hexadecimal text of some 64-bit value.
pub open spec fn is_hex_id(s: Seq<char>) -> bool {
    exists|n: u64| s == hex_text(n as nat)
}

/// `<str as Hash>::hash`: feeds one text into the hasher. What it writes is
/// std's own affair and is not stated.
#[verifier::external_body]
fn feed_str(hasher: &mut DefaultHasher, part: &str) {
    part.hash(hasher);
}

/// An identifier for what the parts hold: the hexadecimal value that std's
/// `DefaultHasher` gives after hashing each part in turn. Which value that
/// is belongs to std's hashing algorithm and is not stated.
pub fn content_hash(parts: &[&str]) -> (r: String)
    ensures
        is_hex_id(r@),
{
    let mut hasher = DefaultHasher::new();
    let mut i: usize = 0;
    while i < parts.len()
        invariant
            i <= parts.len(),
        decreases parts.len() - i,
    {
        feed_str(&mut hasher, parts[i]);
        i = i + 1;
    }
    let n = hasher.finish();
    let digits = u64_to_hex(n);
    let r = string_of(&digits);
    assert(r@ == hex_text(n as nat));
    r
}

// ------------------------------------------------------------ prices

pub open spec fn is_price_char(c: char) -> bool {
    ('0' <= c && c <= '9') || c == '.' || c == ','
}

/// Reading left to right: characters that can belong to a price are
/// gathered, others are skipped until the first one was gathered, after
/// which they end the number.
pub open spec fn price_scan(s: Seq<char>, acc: Seq<char>) -> Seq<char>
    decreases s.len(),
{
    if s.len() == 0 {
        acc
    } else if is_price_char(s[0]) {
        price_scan(s.drop_first(), acc.push(s[0]))
    } else if acc.len() > 0 {
        acc
    } else {
        price_scan(s.drop_first(), acc)
    }
}

/// The number written after the first `$`, with its digits, points and
/// commas; nothing when the text has no `$`.
pub open spec fn price_number(text: Seq<char>) -> Option<Seq<char>> {
    match find(text, seq!['$']) {
        Some(d) => Some(price_scan(text.skip(d + 1), seq![])),
        None => None,
    }
}

pub fn price_number_chars(v: &Vec<char>) -> (r: Option<Vec<char>>)
    ensures
        match r {
            Some(x) => price_number(v@) == Some(x@),
            None => price_number(v@) is None,
        },
{
    let dollar = vec!['$'];
    assert(dollar@ =~= seq!['$']);
    assert(dollar@.len() == 1);
    match find_in(v, &dollar) {
        None => None,
        Some(d) => {
            let len = v.len();
            let mut number: Vec<char> = Vec::new();
            let mut i = d + 1;
            while i < v.len()
                invariant
                    d + 1 <= i <= v.len(),
                    price_number(v@) == Some(price_scan(v@.skip(d + 1), seq![])),
                    price_scan(v@.skip(d + 1), seq![]) == price_scan(v@.skip(i as int), number@),
                decreases v.len() - i,
            {
                let c = v[i];
                assert(v@.skip(i as int)[0] == c);
                assert(v@.skip(i as int).drop_first() =~= v@.skip(i + 1));
                if ('0' <= c && c <= '9') || c == '.' || c == ',' {
                    number.push(c);
                } else if number.len() > 0 {
                    assert(!is_price_char(c));
                    assert(price_scan(v@.skip(i as int), number@) == number@);
                    return Some(number);
                }
                i = i + 1;
            }
            assert(v@.skip(i as int) =~= Seq::<char>::empty());
            Some(number)
        },
    }
}

// ------------------------------------------------------------ anchor text

/// Walks `s` left to right: the characters outside tags, and whether the
/// walk ends inside a tag.
pub open spec fn bare_text(s: Seq<char>) -> (Seq<char>, bool)
    decreases s.len(),
{
    if s.len() == 0 {
        (seq![], false)
    } else {
        let (out, in_tag) = bare_text(s.drop_last());
        let c = s.last();
        if c == '<' {
            (out, true)
        } else if c == '>' {
            (out, false)
        } else if !in_tag {
            (out.push(c), false)
        } else {
            (out, true)
        }
    }
}

/// The visible text of an anchor: tags dropped, then `&amp;`, `&nbsp;` and
/// `&quot;` decoded in that order.
pub open spec fn listing_text(s: Seq<char>) -> Seq<char> {
    replace_all(
        replace_all(replace_all(bare_text(s).0, "&amp;"@, "&"@), "&nbsp;"@, " "@),
        "&quot;"@,
        "\""@,
    )
}

pub fn bare_text_chars(v: &Vec<char>) -> (r: Vec<char>)
    ensures
        r@ == bare_text(v@).0,
{
    let mut out: Vec<char> = Vec::new();
    let mut in_tag = false;
    let mut i: usize = 0;
    while i < v.len()
        invariant
            i <= v.len(),
            (out@, in_tag) == bare_text(v@.take(i as int)),
        decreases v.len() - i,
    {
        let c = v[i];
        assert(v@.take(i + 1).drop_last() =~= v@.take(i as int));
        assert(v@.take(i + 1).last() == c);
        if c == '<' {
            in_tag = true;
        } else if c == '>' {
            in_tag = false;
        } else if !in_tag {
            out.push(c);
        }
        i = i + 1;
    }
    assert(v@.take(v.len() as int) =~= v@);
    out
}

pub fn listing_text_chars(v: &Vec<char>) -> (r: Vec<char>)
    ensures
        r@ == listing_text(v@),
{
    proof {
        reveal_strlit("&amp;");
        reveal_strlit("&nbsp;");
        reveal_strlit("&quot;");
    }
    let bare = bare_text_chars(v);
    let a = replace_str(&bare, "&amp;", "&");
    let b = replace_str(&a, "&nbsp;", " ");
    replace_str(&b, "&quot;", "\"")
}

// ------------------------------------------------------------ links

/// The trimmed text from `start` up to the next `quote`, if one follows.
pub open spec fn quoted_value(tag: Seq<char>, start: int, quote: char) -> Option<Seq<char>> {
    let rest = tag.skip(start);
    match find(rest, seq![quote]) {
        Some(e) => Some(trim(rest.take(e))),
        None => None,
    }
}

/// The `href` of an anchor's opening tag: the double-quoted form is looked
/// for first, the single-quoted one only when the tag has no double-quoted
/// `href`.
pub open spec fn href_value(tag: Seq<char>) -> Option<Seq<char>> {
    match find(tag, "href=\""@) {
        Some(k) => quoted_value(tag, k + 6, '"'),
        None => match find(tag, "href='"@) {
            Some(k) => quoted_value(tag, k + 6, '\''),
            None => None,
        },
    }
}

fn quoted_value_chars(tag: &Vec<char>, start: usize, quote: char) -> (r: Option<Vec<char>>)
    requires
        start <= tag.len(),
    ensures
        match r {
            Some(x) => quoted_value(tag@, start as int, quote) == Some(x@),
            None => quoted_value(tag@, start as int, quote) is None,
        },
{
    let rest = slice_of(tag, start, tag.len());
    assert(rest@ =~= tag@.skip(start as int));
    let q = vec![quote];
    assert(q@ =~= seq![quote]);
    match find_in(&rest, &q) {
        Some(e) => {
            let head = slice_of(&rest, 0, e);
            assert(head@ =~= rest@.take(e as int));
            Some(trim_chars(&head))
        },
        None => None,
    }
}

pub fn href_value_chars(tag: &Vec<char>) -> (r: Option<Vec<char>>)
    ensures
        match r {
            Some(x) => href_value(tag@) == Some(x@),
            None => href_value(tag@) is None,
        },
{
    proof {
        reveal_strlit("href=\"");
        reveal_strlit("href='");
    }
    let len = tag.len();
    let double = chars_of("href=\"");
    assert(double@.len() == 6);
    match find_in(tag, &double) {
        Some(k) => quoted_value_chars(tag, k + 6, '"'),
        None => {
            let single = chars_of("href='");
            assert(single@.len() == 6);
            match find_in(tag, &single) {
                Some(k) => quoted_value_chars(tag, k + 6, '\''),
                None => None,
            }
        },
    }
}

/// `s` without the trailing run of `c`, as `trim_end_matches` gives it.
pub open spec fn strip_trailing(s: Seq<char>, c: char) -> Seq<char>
    decreases s.len(),
{
    if s.len() > 0 && s.last() == c {
        strip_trailing(s.drop_last(), c)
    } else {
        s
    }
}

pub fn strip_trailing_chars(v: &Vec<char>, c: char) -> (r: Vec<char>)
    ensures
        r@ == strip_trailing(v@, c),
{
    let mut j = v.len();
    assert(v@.take(j as int) =~= v@);
    while j > 0 && v[j - 1] == c
        invariant
            j <= v.len(),
            strip_trailing(v@, c) == strip_trailing(v@.take(j as int), c),
        decreases j,
    {
        assert(v@.take(j as int).drop_last() =~= v@.take(j - 1));
        j = j - 1;
    }
    let r = slice_of(v, 0, j);
    assert(r@ =~= v@.take(j as int));
    r
}

/// Scheme and host of the page address, or the address without trailing
/// slashes when it has no scheme.
pub open spec fn url_origin(base: Seq<char>) -> Seq<char> {
    match find(base, "://"@) {
        Some(k) => base.take(k) + "://"@ + before(base.skip(k + 3), seq!['/']),
        None => strip_trailing(base, '/'),
    }
}

/// Where a link of the page leads: absolute links are kept,
/// protocol-relative ones get `https:`, root-relative ones the page's origin,
/// and the rest are resolved against the page address.
pub open spec fn listing_url(base: Seq<char>, href: Seq<char>) -> Seq<char> {
    if starts_with(href, "http://"@) || starts_with(href, "https://"@) {
        href
    } else if starts_with(href, "//"@) {
        "https:"@ + href
    } else if starts_with(href, seq!['/']) {
        url_origin(base) + href
    } else {
        strip_trailing(base, '/') + seq!['/'] + href
    }
}

pub fn url_origin_chars(base: &Vec<char>) -> (r: Vec<char>)
    ensures
        r@ == url_origin(base@),
{
    proof {
        reveal_strlit("://");
    }
    let sep = chars_of("://");
    match find_in(base, &sep) {
        Some(k) => {
            let mut r = slice_of(base, 0, k);
            extend_chars(&mut r, &sep);
            let len = base.len();
            let rest = slice_of(base, k + 3, len);
            assert(rest@ =~= base@.skip(k + 3));
            let slash = vec!['/'];
            assert(slash@ =~= seq!['/']);
            let host = before_chars(&rest, &slash);
            extend_chars(&mut r, &host);
            r
        },
        None => strip_trailing_chars(base, '/'),
    }
}

pub fn listing_url_chars(base: &Vec<char>, href: &Vec<char>) -> (r: Vec<char>)
    ensures
        r@ == listing_url(base@, href@),
{
    if starts_with_str(href, "http://") || starts_with_str(href, "https://") {
        return href.clone();
    }
    if starts_with_str(href, "//") {
        let mut r = chars_of("https:");
        extend_chars(&mut r, href);
        return r;
    }
    let slash = vec!['/'];
    assert(slash@ =~= seq!['/']);
    if crate::text::starts_with_exec(href, &slash) {
        let mut r = url_origin_chars(base);
        extend_chars(&mut r, href);
        r
    } else {
        let mut r = strip_trailing_chars(base, '/');
        r.push('/');
        extend_chars(&mut r, href);
        r
    }
}

// ------------------------------------------------------------ listing words

/// The lower-cased text mentions one of the words that mark an auction lot.
pub open spec fn mentions_listing_term(l: Seq<char>) -> bool {
    ||| contains(l, "auction"@)
    ||| contains(l, "lot"@)
    ||| contains(l, "listing"@)
    ||| contains(l, "item"@)
    ||| contains(l, "bid"@)
    ||| contains(l, "bike"@)
    ||| contains(l, "mower"@)
    ||| contains(l, "snow"@)
    ||| contains(l, "tool"@)
    ||| contains(l, "generator"@)
    ||| contains(l, "compressor"@)
    ||| contains(l, "pressure"@)
    ||| contains(l, "electronics"@)
    ||| contains(l, "tractor"@)
}

/// A lower-cased text marks a listing exactly when it contains one of the
/// words auction, lot, listing, item, bid, bike, mower, snow, tool,
/// generator, compressor, pressure, electronics or tractor.
pub proof fn listing_words_mark_listings(l: Seq<char>)
    ensures
        mentions_listing_term(l) <==> (contains(l, "auction"@) || contains(l, "lot"@) || contains(
            l,
            "listing"@,
        ) || contains(l, "item"@) || contains(l, "bid"@) || contains(l, "bike"@) || contains(
            l,
            "mower"@,
        ) || contains(l, "snow"@) || contains(l, "tool"@) || contains(l, "generator"@)
            || contains(l, "compressor"@) || contains(l, "pressure"@) || contains(
            l,
            "electronics"@,
        ) || contains(l, "tractor"@)),
{
}

/// A link looks like a listing when its title and address, joined by a
/// space and lower-cased, mention such a word.
pub open spec fn looks_like_listing_text(title: Seq<char>, href: Seq<char>) -> bool {
    mentions_listing_term(unicode_lowercase(title + seq![' '] + href))
}

pub fn looks_like_listing(title: &Vec<char>, href: &Vec<char>) -> (r: bool)
    ensures
        r == looks_like_listing_text(title@, href@),
        is_ascii_seq(title@ + seq![' '] + href@) ==> r == mentions_listing_term(
            lower_ascii(title@ + seq![' '] + href@),
        ),
{
    let mut hay = title.clone();
    hay.push(' ');
    extend_chars(&mut hay, href);
    assert(hay@ =~= title@ + seq![' '] + href@);
    let l = to_lowercase_chars(&hay);
    contains_str(&l, "auction") || contains_str(&l, "lot") || contains_str(&l, "listing")
        || contains_str(&l, "item") || contains_str(&l, "bid") || contains_str(&l, "bike")
        || contains_str(&l, "mower") || contains_str(&l, "snow") || contains_str(&l, "tool")
        || contains_str(&l, "generator") || contains_str(&l, "compressor") || contains_str(
        &l,
        "pressure",
    ) || contains_str(&l, "electronics") || contains_str(&l, "tractor")
}


// ------------------------------------------------------------ anchors

/// The anchors of a page, in order: the opening tag's attributes and the
/// anchor's inner HTML. An anchor whose tag does not close ends the list;
/// one without a closing `</a>` is passed over.
pub open spec fn anchor_pieces(s: Seq<char>) -> Seq<(Seq<char>, Seq<char>)>
    decreases s.len(),
{
    match find(s, seq!['<', 'a']) {
        None => seq![],
        Some(a) => {
            proof {
                lemma_find_from(s, seq!['<', 'a'], 0);
            }
            let r = s.skip(a + 2);
            match find(r, seq!['>']) {
                None => seq![],
                Some(t) => {
                    proof {
                        lemma_find_from(r, seq!['>'], 0);
                    }
                    let r2 = r.skip(t + 1);
                    match find(r2, seq!['<', '/', 'a', '>']) {
                        None => anchor_pieces(r2),
                        Some(e) => {
                            proof {
                                lemma_find_from(r2, seq!['<', '/', 'a', '>'], 0);
                            }
                            seq![(r.take(t), r2.take(e))] + anchor_pieces(r2.skip(e + 4))
                        },
                    }
                },
            }
        },
    }
}

/// What one anchor contributes: its address, its title and the price text
/// after a `$`, when it has an `href`, a title of at least four bytes, and
/// looks like a listing.
pub open spec fn anchor_listing(base: Seq<char>, tag: Seq<char>, inner: Seq<char>) -> Option<
    (Seq<char>, Seq<char>, Option<Seq<char>>),
> {
    match href_value(tag) {
        None => None,
        Some(href) => {
            let text = listing_text(inner);
            let title = squeeze_ws(text);
            if utf8_len(title) < 4 || !looks_like_listing_text(title, href) {
                None
            } else {
                Some((listing_url(base, href), title, price_number(text)))
            }
        },
    }
}

pub open spec fn has_url(rows: Seq<(Seq<char>, Seq<char>, Option<Seq<char>>)>, url: Seq<char>) -> bool {
    exists|i: int| 0 <= i < rows.len() && (#[trigger] rows[i]).0 == url
}

/// The listings of a run of anchors, in order: at most
/// `MAX_REFRESH_LISTINGS` of them, each address once (the first anchor that
/// leads there wins).
pub open spec fn listing_rows(base: Seq<char>, anchors: Seq<(Seq<char>, Seq<char>)>) -> Seq<
    (Seq<char>, Seq<char>, Option<Seq<char>>),
>
    decreases anchors.len(),
{
    if anchors.len() == 0 {
        seq![]
    } else {
        let rows = listing_rows(base, anchors.drop_last());
        if rows.len() >= MAX_REFRESH_LISTINGS {
            rows
        } else {
            match anchor_listing(base, anchors.last().0, anchors.last().1) {
                Some(row) => if has_url(rows, row.0) {
                    rows
                } else {
                    rows.push(row)
                },
                None => rows,
            }
        }
    }
}

/// The listings that a refresh reads out of a page.
pub open spec fn page_listings(base: Seq<char>, html: Seq<char>) -> Seq<
    (Seq<char>, Seq<char>, Option<Seq<char>>),
> {
    listing_rows(base, anchor_pieces(html))
}

/// Once the cap is reached, later anchors change nothing.
pub proof fn lemma_listing_rows_full(
    base: Seq<char>,
    a: Seq<(Seq<char>, Seq<char>)>,
    b: Seq<(Seq<char>, Seq<char>)>,
)
    requires
        listing_rows(base, a).len() >= MAX_REFRESH_LISTINGS,
    ensures
        listing_rows(base, a + b) == listing_rows(base, a),
    decreases b.len(),
{
    if b.len() == 0 {
        assert(a + b =~= a);
    } else {
        lemma_listing_rows_full(base, a, b.drop_last());
        assert((a + b).drop_last() =~= a + b.drop_last());
    }
}

/// A listing found on a page. `price_text` is the number written after the
/// first `$` of the anchor's text, as written.
#[derive(Clone, Debug)]
pub struct RefreshCandidate {
    pub external_id: String,
    pub url: String,
    pub title: String,
    pub price_text: Option<String>,
}

impl RefreshCandidate {
    pub open spec fn row(self) -> (Seq<char>, Seq<char>, Option<Seq<char>>) {
        (
            self.url@,
            self.title@,
            match self.price_text {
                Some(p) => Some(p@),
                None => None,
            },
        )
    }
}

pub open spec fn candidate_rows(v: Seq<RefreshCandidate>) -> Seq<
    (Seq<char>, Seq<char>, Option<Seq<char>>),
> {
    v.map_values(|c: RefreshCandidate| c.row())
}

/// What one anchor contributes, computed.
pub fn anchor_listing_chars(base: &Vec<char>, tag: &Vec<char>, inner: &Vec<char>) -> (r: Option<
    (Vec<char>, Vec<char>, Option<Vec<char>>),
>)
    ensures
        match r {
            Some((url, title, price)) => anchor_listing(base@, tag@, inner@) == Some(
                (
                    url@,
                    title@,
                    match price {
                        Some(p) => Some(p@),
                        None => None,
                    },
                ),
            ),
            None => anchor_listing(base@, tag@, inner@) is None,
        },
{
    let text = listing_text_chars(inner);
    let href = match href_value_chars(tag) {
        Some(h) => h,
        None => {
            return None;
        },
    };
    let title = squeeze_ws_chars(&text);
    let n = utf8_len_capped(&title, 4);
    if n < 4 || !looks_like_listing(&title, &href) {
        return None;
    }
    let url = listing_url_chars(base, &href);
    let price = price_number_chars(&text);
    Some((url, title, price))
}

fn url_seen(urls: &Vec<Vec<char>>, url: &Vec<char>) -> (r: bool)
    ensures
        r == exists|i: int| 0 <= i < urls.len() && (#[trigger] urls[i])@ == url@,
{
    let mut i: usize = 0;
    while i < urls.len()
        invariant
            i <= urls.len(),
            forall|j: int| 0 <= j < i ==> (#[trigger] urls[j])@ != url@,
        decreases urls.len() - i,
    {
        if chars_eq(&urls[i], url) {
            return true;
        }
        i = i + 1;
    }
    false
}

/// The listings of a public auction page, read from its anchors: see
/// `page_listings`. Each carries a content hash of its address as its
/// external identifier.
pub fn extract_listing_candidates(base_url: &str, html: &str) -> (r: Vec<RefreshCandidate>)
    ensures
        candidate_rows(r@) == page_listings(base_url@, html@),
        forall|i: int| 0 <= i < r.len() ==> is_hex_id((#[trigger] r[i]).external_id@),
{
    let v = chars_of(html);
    let base = chars_of(base_url);
    let open = vec!['<', 'a'];
    let gt = vec!['>'];
    let close = vec!['<', '/', 'a', '>'];
    assert(open@ =~= seq!['<', 'a']);
    assert(gt@ =~= seq!['>']);
    assert(close@ =~= seq!['<', '/', 'a', '>']);
    let mut out: Vec<RefreshCandidate> = Vec::new();
    let mut urls: Vec<Vec<char>> = Vec::new();
    let mut pos: usize = 0;
    let ghost mut done: Seq<(Seq<char>, Seq<char>)> = seq![];
    assert(v@.skip(0) =~= v@);
    assert(done + anchor_pieces(v@.skip(0)) =~= anchor_pieces(v@));
    assert(candidate_rows(out@) =~= listing_rows(base@, done));
    loop
        invariant
            pos <= v.len(),
            base@ == base_url@,
            v@ == html@,
            open@ == seq!['<', 'a'],
            gt@ == seq!['>'],
            close@ == seq!['<', '/', 'a', '>'],
            done + anchor_pieces(v@.skip(pos as int)) == anchor_pieces(v@),
            candidate_rows(out@) == listing_rows(base@, done),
            out.len() < MAX_REFRESH_LISTINGS,
            urls.len() == out.len(),
            forall|i: int| 0 <= i < urls.len() ==> (#[trigger] urls[i])@ == out[i].url@,
            forall|i: int| 0 <= i < out.len() ==> is_hex_id((#[trigger] out[i]).external_id@),
        decreases v.len() - pos,
    {
        let ghost s = v@.skip(pos as int);
        proof {
            lemma_find_skip(v@, open@, pos as int);
            lemma_find_from(v@, open@, pos as int);
        }
        let a = match find_from_exec(&v, &open, pos) {
            Some(a) => a,
            None => {
                assert(done + anchor_pieces(s) =~= done);
                return out;
            },
        };
        let tag_start = a + 2;
        let ghost r = s.skip((a - pos) + 2);
        assert(r =~= v@.skip(tag_start as int));
        proof {
            lemma_find_skip(v@, gt@, tag_start as int);
            lemma_find_from(v@, gt@, tag_start as int);
        }
        let t = match find_from_exec(&v, &gt, tag_start) {
            Some(t) => t,
            None => {
                assert(done + anchor_pieces(s) =~= done);
                return out;
            },
        };
        let after_tag = t + 1;
        let ghost r2 = r.skip((t - tag_start) + 1);
        assert(r2 =~= v@.skip(after_tag as int));
        proof {
            lemma_find_skip(v@, close@, after_tag as int);
            lemma_find_from(v@, close@, after_tag as int);
        }
        let e = match find_from_exec(&v, &close, after_tag) {
            Some(e) => e,
            None => {
                assert(anchor_pieces(s) == anchor_pieces(v@.skip(after_tag as int)));
                pos = after_tag;
                continue ;
            },
        };
        let tag = slice_of(&v, tag_start, t);
        let inner = slice_of(&v, after_tag, e);
        assert(tag@ =~= r.take(t - tag_start));
        assert(inner@ =~= r2.take(e - after_tag));
        assert(r2.skip((e - after_tag) + 4) =~= v@.skip(e + 4));
        assert(anchor_pieces(s) == seq![(tag@, inner@)] + anchor_pieces(v@.skip(e + 4)));
        pos = e + 4;
        let ghost before_done = done;
        proof {
            done = done.push((tag@, inner@));
            assert(before_done + anchor_pieces(s) =~= done + anchor_pieces(v@.skip(pos as int)));
            assert(done.drop_last() =~= before_done);
        }
        match anchor_listing_chars(&base, &tag, &inner) {
            None => {},
            Some((url, title, price)) => {
                let seen = url_seen(&urls, &url);
                proof {
                    let rows = candidate_rows(out@);
                    if has_url(rows, url@) {
                        let i = choose|i: int| 0 <= i < rows.len() && (#[trigger] rows[i]).0 == url@;
                        assert(urls[i]@ == url@);
                    }
                    if seen {
                        let i = choose|i: int| 0 <= i < urls.len() && (#[trigger] urls[i])@ == url@;
                        assert(rows[i].0 == url@);
                    }
                }
                if !seen {
                    let url_text = string_of(&url);
                    let external_id = content_hash(&[url_text.as_str()]);
                    let price_text = match price {
                        Some(p) => Some(string_of(&p)),
                        None => None,
                    };
                    let candidate = RefreshCandidate {
                        external_id,
                        url: url_text,
                        title: string_of(&title),
                        price_text,
                    };
                    let ghost old_out = out@;
                    out.push(candidate);
                    urls.push(url);
                    assert(candidate_rows(out@) =~= candidate_rows(old_out).push(candidate.row()));
                    if out.len() >= MAX_REFRESH_LISTINGS {
                        proof {
                            lemma_listing_rows_full(base@, done, anchor_pieces(v@.skip(pos as int)));
                        }
                        return out;
                    }
                }
            },
        }
    }
}


// ------------------------------------------------------------ drafts

/// What a manual import of one listing is given.
pub struct RepairResellManualImportInput {
    pub source_id: String,
    pub canonical_url: String,
    pub title: String,
    pub description_text: String,
    pub source_category_text: Option<String>,
    pub condition_text: Option<String>,
    pub location_text: Option<String>,
    pub current_price_cents: Option<i64>,
    pub closing_at: Option<String>,
    pub pickup_text: Option<String>,
    pub inspection_text: Option<String>,
}

/// A change to a listing's place on the watch list.
pub struct RepairResellWatchlistInput {
    pub listing_id: String,
    pub is_watchlisted: bool,
    pub watch_status: Option<String>,
    pub notes: Option<String>,
}

/// A listing as the store receives it.
pub struct RepairResellListingDraft {
    pub source_id: String,
    pub external_id: Option<String>,
    pub canonical_url: String,
    pub title: String,
    pub description_text: String,
    pub source_category_text: String,
    pub condition_text: String,
    pub location_text: String,
    pub current_price_cents: Option<i64>,
    pub closing_at: String,
    pub pickup_text: String,
    pub inspection_text: String,
    pub listing_status: String,
    pub content_hash: String,
    pub structured_json: String,
}

/// An optional text, or the empty text.
pub open spec fn text_or_empty(value: Option<String>) -> Seq<char> {
    match value {
        Some(v) => v@,
        None => seq![],
    }
}

fn take_text(value: Option<String>) -> (r: String)
    ensures
        r@ == text_or_empty(value),
{
    match value {
        Some(v) => v,
        None => String::new(),
    }
}

/// The draft of a manually entered listing: the address, title and
/// description trimmed, absent texts empty, the status `unknown`, and a
/// content hash of the address, title and description as entered. The title
/// and the address must not be blank.
pub fn manual_import_draft(input: RepairResellManualImportInput) -> (r: Result<
    RepairResellListingDraft,
    String,
>)
    ensures
        trim(input.title@).len() == 0 ==> (r matches Err(e) && e@ == "Listing title is required."@),
        trim(input.title@).len() > 0 && trim(input.canonical_url@).len() == 0 ==> (r matches Err(e)
            && e@ == "Listing URL is required."@),
        trim(input.title@).len() > 0 && trim(input.canonical_url@).len() > 0 ==> r is Ok,
        r matches Ok(d) ==> {
            &&& d.source_id@ == input.source_id@
            &&& d.external_id is None
            &&& d.canonical_url@ == trim(input.canonical_url@)
            &&& d.title@ == trim(input.title@)
            &&& d.description_text@ == trim(input.description_text@)
            &&& d.source_category_text@ == text_or_empty(input.source_category_text)
            &&& d.condition_text@ == text_or_empty(input.condition_text)
            &&& d.location_text@ == text_or_empty(input.location_text)
            &&& d.current_price_cents == input.current_price_cents
            &&& d.closing_at@ == text_or_empty(input.closing_at)
            &&& d.pickup_text@ == text_or_empty(input.pickup_text)
            &&& d.inspection_text@ == text_or_empty(input.inspection_text)
            &&& d.listing_status@ == "unknown"@
            &&& is_hex_id(d.content_hash@)
            &&& d.structured_json@ == "{}"@
        },
{
    let title_chars = trim_chars(&chars_of(input.title.as_str()));
    if title_chars.len() == 0 {
        return Err(owned("Listing title is required."));
    }
    let url_chars = trim_chars(&chars_of(input.canonical_url.as_str()));
    if url_chars.len() == 0 {
        return Err(owned("Listing URL is required."));
    }
    let title = string_of(&title_chars);
    let canonical_url = string_of(&url_chars);
    let description_text = trim_str(input.description_text.as_str());
    let content_hash = content_hash(
        &[input.canonical_url.as_str(), input.title.as_str(), input.description_text.as_str()],
    );
    Ok(
        RepairResellListingDraft {
            source_id: input.source_id,
            external_id: None,
            canonical_url,
            title,
            description_text,
            source_category_text: take_text(input.source_category_text),
            condition_text: take_text(input.condition_text),
            location_text: take_text(input.location_text),
            current_price_cents: input.current_price_cents,
            closing_at: take_text(input.closing_at),
            pickup_text: take_text(input.pickup_text),
            inspection_text: take_text(input.inspection_text),
            listing_status: owned("unknown"),
            content_hash,
            structured_json: owned("{}"),
        },
    )
}

/// The draft of a listing found by a refresh of a source: described as
/// found by that source, in the source's category and region, with the
/// candidate's identifier, address, title and price, and a content hash of
/// its address and title.
pub fn refresh_candidate_draft(
    source_id: &str,
    source_name: &str,
    source_kind_label: &str,
    source_region_label: &str,
    candidate: &RefreshCandidate,
    price_cents: Option<i64>,
) -> (r: RepairResellListingDraft)
    ensures
        r.source_id@ == source_id@,
        r.external_id matches Some(id) && id@ == candidate.external_id@,
        r.canonical_url@ == candidate.url@,
        r.title@ == candidate.title@,
        r.description_text@ == "Discovered from "@ + source_name@ + " manual refresh."@,
        r.source_category_text@ == source_kind_label@,
        r.condition_text@.len() == 0,
        r.location_text@ == source_region_label@,
        r.current_price_cents == price_cents,
        r.closing_at@.len() == 0,
        r.pickup_text@.len() == 0,
        r.inspection_text@.len() == 0,
        r.listing_status@ == "unknown"@,
        is_hex_id(r.content_hash@),
        r.structured_json@ == "{}"@,
{
    let mut description = chars_of("Discovered from ");
    crate::text::extend_str(&mut description, source_name);
    crate::text::extend_str(&mut description, " manual refresh.");
    let content_hash = content_hash(&[candidate.url.as_str(), candidate.title.as_str()]);
    RepairResellListingDraft {
        source_id: owned(source_id),
        external_id: Some(candidate.external_id.clone()),
        canonical_url: candidate.url.clone(),
        title: candidate.title.clone(),
        description_text: string_of(&description),
        source_category_text: owned(source_kind_label),
        condition_text: String::new(),
        location_text: owned(source_region_label),
        current_price_cents: price_cents,
        closing_at: String::new(),
        pickup_text: String::new(),
        inspection_text: String::new(),
        listing_status: owned("unknown"),
        content_hash,
        structured_json: owned("{}"),
    }
}

/// The values a watch-list change stores: the listing, the flag, the status
/// (`watching` when none is given) and the notes (empty when none are
/// given).
pub fn watchlist_values(input: RepairResellWatchlistInput) -> (r: (String, bool, String, String))
    ensures
        r.0@ == input.listing_id@,
        r.1 == input.is_watchlisted,
        r.2@ == match input.watch_status {
            Some(s) => s@,
            None => "watching"@,
        },
        r.3@ == text_or_empty(input.notes),
{
    let status = match input.watch_status {
        Some(s) => s,
        None => owned("watching"),
    };
    (input.listing_id, input.is_watchlisted, status, take_text(input.notes))
}

/// A deal estimate needs a label that is not blank.
pub fn validate_estimate_label(label: &str) -> (r: Result<(), String>)
    ensures
        trim(label@).len() == 0 <==> r is Err,
        r matches Err(e) ==> e@ == "Estimate label is required."@,
{
    let t = trim_chars(&chars_of(label));
    if t.len() == 0 {
        Err(owned("Estimate label is required."))
    } else {
        Ok(())
    }
}

/// The confidence an estimate records: the one given, or `low`.
pub fn estimate_confidence(confidence: Option<String>) -> (r: String)
    ensures
        r@ == match confidence {
            Some(c) => c@,
            None => "low"@,
        },
{
    match confidence {
        Some(c) => c,
        None => owned("low"),
    }
}

// ------------------------------------------------------------ refresh runs

/// Only enabled sources read over public HTTP are fetched; others are
/// manual-import only.
pub fn refresh_fetches(enabled: bool, scrape_mode: &str) -> (r: bool)
    ensures
        r == (enabled && scrape_mode@ == "public_http"@),
{
    enabled && crate::text::chars_eq_str(&chars_of(scrape_mode), "public_http")
}

/// How a refresh ended.
pub enum RefreshAttempt {
    /// The source is disabled or manual-import only.
    Skipped,
    /// The page was read and this many listings were stored.
    Stored(usize),
    /// Fetching or storing failed with this message.
    Failed(String),
}

/// What the finished run records: its status, its four counters in the
/// order the store takes them, and its message.
pub struct ScrapeRunFinish {
    pub status: String,
    pub counts: (i64, i64, i64, i64),
    pub message: String,
}

/// The record of a finished run: `skipped` with one skip, `succeeded` with
/// the stored listings counted as found and imported, or `failed` with the
/// error as message.
pub fn scrape_run_finish(attempt: RefreshAttempt) -> (r: ScrapeRunFinish)
    requires
        attempt matches RefreshAttempt::Stored(n) ==> n <= i64::MAX,
    ensures
        match attempt {
            RefreshAttempt::Skipped => r.status@ == "skipped"@ && r.counts == (0i64, 0i64, 0i64, 1i64)
                && r.message@ == "Source is disabled or manual-import only."@,
            RefreshAttempt::Stored(n) => r.status@ == "succeeded"@ && r.counts == (
                n as i64,
                0i64,
                n as i64,
                0i64,
            ) && r.message@.len() == 0,
            RefreshAttempt::Failed(e) => r.status@ == "failed"@ && r.counts == (0i64, 0i64, 0i64, 0i64)
                && r.message@ == e@,
        },
{
    match attempt {
        RefreshAttempt::Skipped => ScrapeRunFinish {
            status: owned("skipped"),
            counts: (0, 0, 0, 1),
            message: owned("Source is disabled or manual-import only."),
        },
        RefreshAttempt::Stored(n) => ScrapeRunFinish {
            status: owned("succeeded"),
            counts: (n as i64, 0, n as i64, 0),
            message: String::new(),
        },
        RefreshAttempt::Failed(e) => ScrapeRunFinish {
            status: owned("failed"),
            counts: (0, 0, 0, 0),
            message: e,
        },
    }
}

} // verus!
