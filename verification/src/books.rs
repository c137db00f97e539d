//! Book domain: formats and statuses, search input checks, ISBN validation,
//! provider descriptions and catalog result keys.
use crate::media::{
    http_url_error, normalized_key, validate_http_url, MediaError, MediaErrorKind,
    MediaLibraryStatus,
};
use crate::text::{
    ascii_upper, chars_eq_str, chars_of, decimal, extend_chars,
    extend_str, owned, replace_all, replace_str, squeeze_ws, squeeze_ws_chars, string_of,
    trim, trim_chars, u64_to_decimal, upper_ascii,
};
use vstd::prelude::*;

verus! {

#[derive(Clone, Copy, Debug, PartialEq, Eq, Structural)]
pub enum BookSearchMode {
    General,
    Title,
    Author,
    Isbn,
}

#[derive(Clone, Copy, Debug, PartialEq, Eq, Structural)]
pub enum BookFormat {
    Hardcover,
    Paperback,
    Ebook,
    Audiobook,
    Other,
    Unknown,
}

impl BookFormat {
    pub open spec fn label(self) -> Seq<char> {
        match self {
            BookFormat::Hardcover => "HARDCOVER"@,
            BookFormat::Paperback => "PAPERBACK"@,
            BookFormat::Ebook => "EBOOK"@,
            BookFormat::Audiobook => "AUDIOBOOK"@,
            BookFormat::Other => "OTHER"@,
            BookFormat::Unknown => "UNKNOWN"@,
        }
    }

    /// An empty value means an unknown format.
    pub open spec fn from_label(s: Seq<char>) -> Option<BookFormat> {
        let k = upper_ascii(trim(s));
        if k == "HARDCOVER"@ {
            Some(BookFormat::Hardcover)
        } else if k == "PAPERBACK"@ {
            Some(BookFormat::Paperback)
        } else if k == "EBOOK"@ {
            Some(BookFormat::Ebook)
        } else if k == "AUDIOBOOK"@ {
            Some(BookFormat::Audiobook)
        } else if k == "OTHER"@ {
            Some(BookFormat::Other)
        } else if k.len() == 0 || k == "UNKNOWN"@ {
            Some(BookFormat::Unknown)
        } else {
            None
        }
    }

    pub fn default() -> (r: BookFormat)
        ensures
            r == BookFormat::Unknown,
    {
        BookFormat::Unknown
    }

    pub fn as_str(self) -> (r: &'static str)
        ensures
            r@ == self.label(),
    {
        match self {
            BookFormat::Hardcover => "HARDCOVER",
            BookFormat::Paperback => "PAPERBACK",
            BookFormat::Ebook => "EBOOK",
            BookFormat::Audiobook => "AUDIOBOOK",
            BookFormat::Other => "OTHER",
            BookFormat::Unknown => "UNKNOWN",
        }
    }

    pub fn from_str(value: &str) -> (r: Result<BookFormat, MediaError>)
        ensures
            r is Ok <==> BookFormat::from_label(value@) is Some,
            r matches Ok(t) ==> BookFormat::from_label(value@) == Some(t),
            r matches Err(e) ==> e.kind == MediaErrorKind::Validation && e.message@
                == "Unsupported book format."@,
    {
        let k = normalized_key(value);
        if chars_eq_str(&k, "HARDCOVER") {
            Ok(BookFormat::Hardcover)
        } else if chars_eq_str(&k, "PAPERBACK") {
            Ok(BookFormat::Paperback)
        } else if chars_eq_str(&k, "EBOOK") {
            Ok(BookFormat::Ebook)
        } else if chars_eq_str(&k, "AUDIOBOOK") {
            Ok(BookFormat::Audiobook)
        } else if chars_eq_str(&k, "OTHER") {
            Ok(BookFormat::Other)
        } else if k.len() == 0 || chars_eq_str(&k, "UNKNOWN") {
            Ok(BookFormat::Unknown)
        } else {
            Err(MediaError::validation("Unsupported book format."))
        }
    }
}

#[derive(Clone, Copy, Debug, PartialEq, Eq, Structural)]
pub enum BookProgressUnit {
    Page,
    Percent,
    Minute,
    Chapter,
}

impl BookProgressUnit {
    pub open spec fn label(self) -> Seq<char> {
        match self {
            BookProgressUnit::Page => "PAGE"@,
            BookProgressUnit::Percent => "PERCENT"@,
            BookProgressUnit::Minute => "MINUTE"@,
            BookProgressUnit::Chapter => "CHAPTER"@,
        }
    }

    pub open spec fn from_label(s: Seq<char>) -> Option<BookProgressUnit> {
        let k = upper_ascii(trim(s));
        if k == "PAGE"@ {
            Some(BookProgressUnit::Page)
        } else if k == "PERCENT"@ {
            Some(BookProgressUnit::Percent)
        } else if k == "MINUTE"@ {
            Some(BookProgressUnit::Minute)
        } else if k == "CHAPTER"@ {
            Some(BookProgressUnit::Chapter)
        } else {
            None
        }
    }

    pub fn as_str(self) -> (r: &'static str)
        ensures
            r@ == self.label(),
    {
        match self {
            BookProgressUnit::Page => "PAGE",
            BookProgressUnit::Percent => "PERCENT",
            BookProgressUnit::Minute => "MINUTE",
            BookProgressUnit::Chapter => "CHAPTER",
        }
    }

    pub fn from_str(value: &str) -> (r: Result<BookProgressUnit, MediaError>)
        ensures
            r is Ok <==> BookProgressUnit::from_label(value@) is Some,
            r matches Ok(t) ==> BookProgressUnit::from_label(value@) == Some(t),
            r matches Err(e) ==> e.kind == MediaErrorKind::Validation && e.message@
                == "Unsupported book progress unit."@,
    {
        let k = normalized_key(value);
        if chars_eq_str(&k, "PAGE") {
            Ok(BookProgressUnit::Page)
        } else if chars_eq_str(&k, "PERCENT") {
            Ok(BookProgressUnit::Percent)
        } else if chars_eq_str(&k, "MINUTE") {
            Ok(BookProgressUnit::Minute)
        } else if chars_eq_str(&k, "CHAPTER") {
            Ok(BookProgressUnit::Chapter)
        } else {
            Err(MediaError::validation("Unsupported book progress unit."))
        }
    }
}

#[derive(Clone, Copy, Debug, PartialEq, Eq, Structural)]
pub enum BookOwnershipStatus {
    NotOwned,
    Owned,
    Borrowed,
    Wishlist,
}

impl BookOwnershipStatus {
    pub open spec fn label(self) -> Seq<char> {
        match self {
            BookOwnershipStatus::NotOwned => "NONE"@,
            BookOwnershipStatus::Owned => "OWNED"@,
            BookOwnershipStatus::Borrowed => "BORROWED"@,
            BookOwnershipStatus::Wishlist => "WISHLIST"@,
        }
    }

    pub open spec fn from_label(s: Seq<char>) -> Option<BookOwnershipStatus> {
        let k = upper_ascii(trim(s));
        if k == "NONE"@ {
            Some(BookOwnershipStatus::NotOwned)
        } else if k == "OWNED"@ {
            Some(BookOwnershipStatus::Owned)
        } else if k == "BORROWED"@ {
            Some(BookOwnershipStatus::Borrowed)
        } else if k == "WISHLIST"@ {
            Some(BookOwnershipStatus::Wishlist)
        } else {
            None
        }
    }

    pub fn default() -> (r: BookOwnershipStatus)
        ensures
            r == BookOwnershipStatus::NotOwned,
    {
        BookOwnershipStatus::NotOwned
    }

    pub fn as_str(self) -> (r: &'static str)
        ensures
            r@ == self.label(),
    {
        match self {
            BookOwnershipStatus::NotOwned => "NONE",
            BookOwnershipStatus::Owned => "OWNED",
            BookOwnershipStatus::Borrowed => "BORROWED",
            BookOwnershipStatus::Wishlist => "WISHLIST",
        }
    }

    pub fn from_str(value: &str) -> (r: Result<BookOwnershipStatus, MediaError>)
        ensures
            r is Ok <==> BookOwnershipStatus::from_label(value@) is Some,
            r matches Ok(t) ==> BookOwnershipStatus::from_label(value@) == Some(t),
            r matches Err(e) ==> e.kind == MediaErrorKind::Validation && e.message@
                == "Unsupported book ownership status."@,
    {
        let k = normalized_key(value);
        if chars_eq_str(&k, "NONE") {
            Ok(BookOwnershipStatus::NotOwned)
        } else if chars_eq_str(&k, "OWNED") {
            Ok(BookOwnershipStatus::Owned)
        } else if chars_eq_str(&k, "BORROWED") {
            Ok(BookOwnershipStatus::Borrowed)
        } else if chars_eq_str(&k, "WISHLIST") {
            Ok(BookOwnershipStatus::Wishlist)
        } else {
            Err(MediaError::validation("Unsupported book ownership status."))
        }
    }
}

// ------------------------------------------------------------ ISBNs

/// Characters that an ISBN keeps: ASCII digits and `x`/`X`.
pub open spec fn is_isbn_char(c: char) -> bool {
    ('0' <= c <= '9') || c == 'x' || c == 'X'
}

/// The ISBN characters of `s`, in order, with `x` upper-cased.
pub open spec fn isbn_chars(s: Seq<char>) -> Seq<char>
    decreases s.len(),
{
    if s.len() == 0 {
        seq![]
    } else if is_isbn_char(s.last()) {
        isbn_chars(s.drop_last()).push(ascii_upper(s.last()))
    } else {
        isbn_chars(s.drop_last())
    }
}

pub open spec fn digit_value(c: char) -> int {
    if c == 'X' {
        10
    } else {
        (c as u32) - ('0' as u32)
    }
}

pub open spec fn is_digit(c: char) -> bool {
    '0' <= c <= '9'
}

/// Sum of `(10 - i) * digit(i)` over the first `n` characters.
pub open spec fn isbn10_sum(v: Seq<char>, n: int) -> int
    decreases n,
{
    if n <= 0 {
        0
    } else {
        isbn10_sum(v, n - 1) + (10 - (n - 1)) * digit_value(v[n - 1])
    }
}

/// Sum of the digits weighted alternately by 1 and 3 over the first `n`.
pub open spec fn isbn13_sum(v: Seq<char>, n: int) -> int
    decreases n,
{
    if n <= 0 {
        0
    } else {
        isbn13_sum(v, n - 1) + digit_value(v[n - 1]) * (if (n - 1) % 2 == 0 {
            1int
        } else {
            3int
        })
    }
}

/// A ten-character ISBN: digits, with `X` allowed as the check character,
/// and a weighted sum divisible by eleven.
pub open spec fn valid_isbn10(v: Seq<char>) -> bool {
    &&& v.len() == 10
    &&& forall|i: int| 0 <= i < 10 ==> is_digit(#[trigger] v[i]) || (i == 9 && v[i] == 'X')
    &&& isbn10_sum(v, 10) % 11 == 0
}

/// A thirteen-digit ISBN whose weighted sum is divisible by ten.
pub open spec fn valid_isbn13(v: Seq<char>) -> bool {
    &&& v.len() == 13
    &&& forall|i: int| 0 <= i < 13 ==> is_digit(#[trigger] v[i])
    &&& isbn13_sum(v, 13) % 10 == 0
}

/// The normalized ISBN of `s`, if its ISBN characters form a valid ISBN-10
/// or ISBN-13.
pub open spec fn spec_normalize_isbn(s: Seq<char>) -> Option<Seq<char>> {
    let n = isbn_chars(s);
    if n.len() == 10 && valid_isbn10(n) {
        Some(n)
    } else if n.len() == 13 && valid_isbn13(n) {
        Some(n)
    } else {
        None
    }
}

fn isbn_chars_exec(v: &Vec<char>) -> (r: Vec<char>)
    ensures
        r@ == isbn_chars(v@),
{
    let mut r: Vec<char> = Vec::new();
    let mut i: usize = 0;
    while i < v.len()
        invariant
            i <= v.len(),
            r@ == isbn_chars(v@.take(i as int)),
        decreases v.len() - i,
    {
        let c = v[i];
        assert(v@.take(i + 1).drop_last() =~= v@.take(i as int));
        if ('0' <= c && c <= '9') || c == 'x' || c == 'X' {
            let u = crate::text::char_to_ascii_upper(c);
            r.push(u);
        }
        i = i + 1;
    }
    assert(v@.take(v.len() as int) =~= v@);
    r
}

fn valid_isbn_10(v: &Vec<char>) -> (r: bool)
    requires
        v.len() == 10,
    ensures
        r == valid_isbn10(v@),
{
    let mut i: usize = 0;
    while i < 10
        invariant
            i <= 10,
            v.len() == 10,
            forall|j: int| 0 <= j < i ==> is_digit(#[trigger] v@[j]) || (j == 9 && v@[j] == 'X'),
        decreases 10 - i,
    {
        let c = v[i];
        if !(('0' <= c && c <= '9') || (i == 9 && c == 'X')) {
            return false;
        }
        i = i + 1;
    }
    let mut sum: u32 = 0;
    let mut k: usize = 0;
    while k < 10
        invariant
            k <= 10,
            v.len() == 10,
            forall|j: int| 0 <= j < 10 ==> is_digit(#[trigger] v@[j]) || (j == 9 && v@[j] == 'X'),
            sum == isbn10_sum(v@, k as int),
            sum <= 100 * k,
        decreases 10 - k,
    {
        let c = v[k];
        let d: u32 = if c == 'X' {
            10
        } else {
            assert(is_digit(v@[k as int]));
            c as u32 - '0' as u32
        };
        let w: u32 = 10 - k as u32;
        assert(d <= 10);
        assert(w * d <= 100) by (nonlinear_arith)
            requires
                w <= 10,
                d <= 10,
        ;
        sum = sum + w * d;
        k = k + 1;
    }
    sum % 11 == 0
}

fn valid_isbn_13(v: &Vec<char>) -> (r: bool)
    requires
        v.len() == 13,
    ensures
        r == valid_isbn13(v@),
{
    let mut i: usize = 0;
    while i < 13
        invariant
            i <= 13,
            v.len() == 13,
            forall|j: int| 0 <= j < i ==> is_digit(#[trigger] v@[j]),
        decreases 13 - i,
    {
        let c = v[i];
        if !('0' <= c && c <= '9') {
            return false;
        }
        i = i + 1;
    }
    let mut sum: u32 = 0;
    let mut k: usize = 0;
    while k < 13
        invariant
            k <= 13,
            v.len() == 13,
            forall|j: int| 0 <= j < 13 ==> is_digit(#[trigger] v@[j]),
            sum == isbn13_sum(v@, k as int),
            sum <= 30 * k,
        decreases 13 - k,
    {
        let c = v[k];
        assert(is_digit(v@[k as int]));
        let d: u32 = c as u32 - '0' as u32;
        let w: u32 = if k % 2 == 0 {
            1
        } else {
            3
        };
        sum = sum + d * w;
        k = k + 1;
    }
    sum % 10 == 0
}

fn normalize_isbn_chars(v: &Vec<char>) -> (r: Option<Vec<char>>)
    ensures
        match r {
            Some(n) => spec_normalize_isbn(v@) == Some(n@),
            None => spec_normalize_isbn(v@) is None,
        },
{
    let n = isbn_chars_exec(v);
    if n.len() == 10 && valid_isbn_10(&n) {
        Some(n)
    } else if n.len() == 13 && valid_isbn_13(&n) {
        Some(n)
    } else {
        None
    }
}

/// Keeps the digits and `X` of an ISBN and accepts it when it is a valid
/// ISBN-10 or ISBN-13.
pub fn normalize_isbn(value: &str) -> (r: Option<String>)
    ensures
        match r {
            Some(n) => spec_normalize_isbn(value@) == Some(n@),
            None => spec_normalize_isbn(value@) is None,
        },
{
    let v = chars_of(value);
    match normalize_isbn_chars(&v) {
        Some(n) => Some(string_of(&n)),
        None => None,
    }
}

pub proof fn lemma_isbn_chars_fixed(s: Seq<char>)
    requires
        forall|i: int| 0 <= i < s.len() ==> is_digit(#[trigger] s[i]) || s[i] == 'X',
    ensures
        isbn_chars(s) == s,
    decreases s.len(),
{
    if s.len() > 0 {
        let t = s.drop_last();
        assert forall|i: int| 0 <= i < t.len() implies is_digit(#[trigger] t[i]) || t[i] == 'X' by {
            assert(t[i] == s[i]);
        }
        lemma_isbn_chars_fixed(t);
        assert(t.push(s.last()) =~= s);
    }
}

/// A normalized ISBN normalizes to itself.
pub proof fn normalize_isbn_is_idempotent(s: Seq<char>)
    requires
        spec_normalize_isbn(s) is Some,
    ensures
        spec_normalize_isbn(spec_normalize_isbn(s)->0) == spec_normalize_isbn(s),
{
    let n = isbn_chars(s);
    assert forall|i: int| 0 <= i < n.len() implies is_digit(#[trigger] n[i]) || n[i] == 'X' by {
    }
    lemma_isbn_chars_fixed(n);
}

// ------------------------------------------------------------ search input

#[derive(Clone, Debug)]
pub struct BookSearchInput {
    pub query: String,
    pub mode: BookSearchMode,
    pub limit: usize,
    pub language: String,
}

/// The result limit used when a request leaves it out.
pub fn default_search_limit() -> (r: usize)
    ensures
        r == 20,
{
    20
}

impl BookSearchInput {
    /// The query that providers are sent: a normalized ISBN in ISBN mode,
    /// otherwise the trimmed text, which must hold two characters or more.
    pub fn validated_query(&self) -> (r: Result<String, MediaError>)
        ensures
            self.mode == BookSearchMode::Isbn ==> match r {
                Ok(q) => spec_normalize_isbn(trim(self.query@)) == Some(q@),
                Err(e) => spec_normalize_isbn(trim(self.query@)) is None && e.kind
                    == MediaErrorKind::Validation && e.message@
                    == "Enter a valid ISBN-10 or ISBN-13 checksum."@,
            },
            self.mode != BookSearchMode::Isbn ==> match r {
                Ok(q) => trim(self.query@).len() >= 2 && q@ == trim(self.query@),
                Err(e) => trim(self.query@).len() < 2 && e.kind == MediaErrorKind::Validation
                    && e.message@ == "Book searches require at least two characters."@,
            },
    {
        let v = chars_of(self.query.as_str());
        let query = trim_chars(&v);
        if self.mode == BookSearchMode::Isbn {
            return match normalize_isbn_chars(&query) {
                Some(n) => Ok(string_of(&n)),
                None => Err(MediaError::validation("Enter a valid ISBN-10 or ISBN-13 checksum.")),
            };
        }
        if query.len() < 2 {
            return Err(MediaError::validation("Book searches require at least two characters."));
        }
        Ok(string_of(&query))
    }

    /// The requested limit clamped to `1..=40`.
    pub fn bounded_limit(&self) -> (r: usize)
        ensures
            r == if self.limit < 1 {
                1
            } else if self.limit > 40 {
                40
            } else {
                self.limit
            },
    {
        if self.limit < 1 {
            1
        } else if self.limit > 40 {
            40
        } else {
            self.limit
        }
    }
}

// ------------------------------------------------------------ descriptions

/// The characters of `s` outside `<...>` tags; `in_tag` tells whether a tag
/// is open before `s`.
pub open spec fn strip_tags(s: Seq<char>, in_tag: bool) -> Seq<char>
    decreases s.len(),
{
    if s.len() == 0 {
        seq![]
    } else if s[0] == '<' {
        strip_tags(s.drop_first(), true)
    } else if s[0] == '>' {
        strip_tags(s.drop_first(), false)
    } else if in_tag {
        strip_tags(s.drop_first(), true)
    } else {
        seq![s[0]] + strip_tags(s.drop_first(), false)
    }
}

pub fn strip_tags_chars(v: &Vec<char>) -> (r: Vec<char>)
    ensures
        r@ == strip_tags(v@, false),
{
    let mut out: Vec<char> = Vec::new();
    let mut in_tag = false;
    let mut i: usize = 0;
    assert(v@.skip(0) =~= v@);
    while i < v.len()
        invariant
            i <= v.len(),
            out@ + strip_tags(v@.skip(i as int), in_tag) == strip_tags(v@, false),
        decreases v.len() - i,
    {
        let c = v[i];
        assert(v@.skip(i as int).drop_first() =~= v@.skip(i + 1));
        assert(v@.skip(i as int)[0] == c);
        if c == '<' {
            in_tag = true;
        } else if c == '>' {
            in_tag = false;
        } else if !in_tag {
            let ghost before = out@;
            out.push(c);
            assert(out@ + strip_tags(v@.skip(i + 1), false) =~= before + (seq![c] + strip_tags(
                v@.skip(i + 1),
                false,
            )));
        }
        i = i + 1;
    }
    assert(v@.skip(i as int) =~= Seq::<char>::empty());
    assert(out@ + Seq::<char>::empty() =~= out@);
    out
}

/// Provider HTML reduced to plain text: tags dropped, the common entities
/// decoded, whitespace runs squeezed to single spaces.
pub open spec fn plain_text(s: Seq<char>) -> Seq<char> {
    squeeze_ws(
        replace_all(
            replace_all(
                replace_all(
                    replace_all(
                        replace_all(strip_tags(s, false), "&amp;"@, "&"@),
                        "&quot;"@,
                        "\""@,
                    ),
                    "&#39;"@,
                    "'"@,
                ),
                "&lt;"@,
                "<"@,
            ),
            "&gt;"@,
            ">"@,
        ),
    )
}

pub fn plain_text_description(value: &str) -> (r: String)
    ensures
        r@ == plain_text(value@),
{
    proof {
        reveal_strlit("&amp;");
        reveal_strlit("&quot;");
        reveal_strlit("&#39;");
        reveal_strlit("&lt;");
        reveal_strlit("&gt;");
    }
    let v = chars_of(value);
    let a = strip_tags_chars(&v);
    let b = replace_str(&a, "&amp;", "&");
    let c = replace_str(&b, "&quot;", "\"");
    let d = replace_str(&c, "&#39;", "'");
    let e = replace_str(&d, "&lt;", "<");
    let f = replace_str(&e, "&gt;", ">");
    let g = squeeze_ws_chars(&f);
    string_of(&g)
}


// ------------------------------------------------------------ catalog results

#[derive(Clone, Debug)]
pub struct BookSourceIdentity {
    pub source_key: String,
    pub entity_type: String,
    pub external_id: String,
    pub source_url: String,
}

#[derive(Clone, Debug)]
pub struct BookCatalogResult {
    pub source_key: String,
    pub external_id: String,
    pub title: String,
    pub subtitle: String,
    pub authors: Vec<String>,
    pub published_date: String,
    pub publisher: String,
    pub isbn_10: String,
    pub isbn_13: String,
    pub page_count: Option<i64>,
    pub language: String,
    pub format: BookFormat,
    pub cover_url: String,
    pub description: String,
    pub work_key: String,
    pub edition_key: String,
    pub info_url: String,
    pub preview_url: String,
    pub already_in_library: bool,
    pub existing_entry_id: Option<i64>,
    pub match_basis: String,
    pub provider_badges: Vec<String>,
    pub source_identities: Vec<BookSourceIdentity>,
}

/// The key under which catalog results from different providers are taken
/// to be the same book: ISBN-13, else ISBN-10, else work key, else the
/// provider identity.
pub open spec fn catalog_key(
    isbn_13: Seq<char>,
    isbn_10: Seq<char>,
    work_key: Seq<char>,
    source_key: Seq<char>,
    external_id: Seq<char>,
) -> Seq<char> {
    if isbn_13.len() > 0 {
        "isbn13:"@ + isbn_13
    } else if isbn_10.len() > 0 {
        "isbn10:"@ + isbn_10
    } else if work_key.len() > 0 {
        "work:"@ + work_key
    } else {
        source_key + ":"@ + external_id
    }
}

impl BookCatalogResult {
    pub open spec fn key(self) -> Seq<char> {
        catalog_key(
            self.isbn_13@,
            self.isbn_10@,
            self.work_key@,
            self.source_key@,
            self.external_id@,
        )
    }

    pub fn dedupe_key(&self) -> (r: String)
        ensures
            r@ == self.key(),
    {
        let mut v: Vec<char>;
        if !self.isbn_13.as_str().is_empty() {
            v = chars_of("isbn13:");
            extend_str(&mut v, self.isbn_13.as_str());
        } else if !self.isbn_10.as_str().is_empty() {
            v = chars_of("isbn10:");
            extend_str(&mut v, self.isbn_10.as_str());
        } else if !self.work_key.as_str().is_empty() {
            v = chars_of("work:");
            extend_str(&mut v, self.work_key.as_str());
        } else {
            v = chars_of(self.source_key.as_str());
            extend_str(&mut v, ":");
            extend_str(&mut v, self.external_id.as_str());
        }
        string_of(&v)
    }
}

#[derive(Clone, Debug)]
pub struct NormalizedBookEdition {
    pub title: String,
    pub subtitle: String,
    pub format: BookFormat,
    pub isbn_10: String,
    pub isbn_13: String,
    pub publisher: String,
    pub published_date: String,
    pub language: String,
    pub page_count: Option<i64>,
    pub audio_duration_minutes: Option<i64>,
    pub cover_url: String,
    pub is_ebook: bool,
    pub access_viewability: String,
}

#[derive(Clone, Debug)]
pub struct NormalizedBookSource {
    pub edition_index: Option<usize>,
    pub source_key: String,
    pub entity_type: String,
    pub external_id: String,
    pub source_url: String,
    pub metadata_json: String,
}

#[derive(Clone, Debug)]
pub struct NormalizedBookLink {
    pub edition_index: Option<usize>,
    pub source_key: String,
    pub link_type: String,
    pub url: String,
    pub region_code: String,
}

#[derive(Clone, Debug)]
pub struct BookProviderFailure {
    pub source_key: String,
    pub message: String,
}

/// The provider name shown to users for a source key.
pub open spec fn provider_display_name(source_key: Seq<char>) -> Seq<char> {
    if source_key == "google_books"@ {
        "Google Books"@
    } else if source_key == "open_library"@ {
        "Open Library"@
    } else if source_key == "hardcover"@ {
        "Hardcover"@
    } else {
        "Book provider"@
    }
}

impl BookProviderFailure {
    /// The warning shown next to search results: provider name, a colon and
    /// the message.
    pub fn warning_message(&self) -> (r: String)
        ensures
            r@ == provider_display_name(self.source_key@) + ": "@ + self.message@,
    {
        let mut v = chars_of(self.provider_name());
        extend_str(&mut v, ": ");
        extend_str(&mut v, self.message.as_str());
        string_of(&v)
    }

    pub fn provider_name(&self) -> (r: &'static str)
        ensures
            r@ == provider_display_name(self.source_key@),
    {
        let k = chars_of(self.source_key.as_str());
        if chars_eq_str(&k, "google_books") {
            "Google Books"
        } else if chars_eq_str(&k, "open_library") {
            "Open Library"
        } else if chars_eq_str(&k, "hardcover") {
            "Hardcover"
        } else {
            "Book provider"
        }
    }
}

#[derive(Clone, Debug)]
pub struct AddCatalogBookInput {
    pub source_key: String,
    pub external_id: String,
    pub library_status: MediaLibraryStatus,
}

/// The status a new catalog book gets when the request leaves it out.
pub fn default_planned_status() -> (r: MediaLibraryStatus)
    ensures
        r == MediaLibraryStatus::Planned,
{
    MediaLibraryStatus::Planned
}

#[derive(Clone, Debug)]
pub struct BookLibraryFilter {
    pub query: String,
    pub library_status: Option<MediaLibraryStatus>,
    pub ownership_status: Option<BookOwnershipStatus>,
    pub preferred_format: Option<BookFormat>,
    pub author_query: String,
    pub tag_id: Option<i64>,
    pub is_favorite: Option<bool>,
    pub is_read_next: Option<bool>,
    pub sort: String,
    pub sort_direction: String,
}

/// The library sort used when a request leaves it out.
pub fn default_book_sort() -> (r: String)
    ensures
        r@ == "RECENTLY_ADDED"@,
{
    owned("RECENTLY_ADDED")
}

/// The sort direction used when a request leaves it out.
pub fn default_sort_direction() -> (r: String)
    ensures
        r@ == "DESC"@,
{
    owned("DESC")
}

#[derive(Clone, Debug)]
pub struct UpdateBookReaderStateInput {
    pub ownership_status: BookOwnershipStatus,
    pub preferred_format: BookFormat,
}

#[derive(Clone, Debug)]
pub struct ManualBookEditionInput {
    pub title: String,
    pub subtitle: String,
    pub format: BookFormat,
    pub isbn_10: String,
    pub isbn_13: String,
    pub publisher: String,
    pub published_date: String,
    pub language: String,
    pub page_count: Option<i64>,
    pub audio_duration_minutes: Option<i64>,
    pub cover_url: String,
}

#[derive(Clone, Debug)]
pub struct BookLinkInput {
    pub edition_id: Option<i64>,
    pub link_type: String,
    pub url: String,
    pub region_code: String,
    pub is_preferred: bool,
}

#[derive(Clone, Debug)]
pub struct BookEditionRecord {
    pub id: i64,
    pub title: String,
    pub subtitle: String,
    pub format: BookFormat,
    pub isbn_10: String,
    pub isbn_13: String,
    pub publisher: String,
    pub published_date: String,
    pub language: String,
    pub page_count: Option<i64>,
    pub audio_duration_minutes: Option<i64>,
    pub cover_url: String,
    pub is_ebook: bool,
    pub access_viewability: String,
    pub is_present_in_source: bool,
    pub source_keys: Vec<String>,
    pub is_user_owned: bool,
}

#[derive(Clone, Debug)]
pub struct BookAuthorRecord {
    pub id: i64,
    pub name: String,
    pub role: String,
    pub position: i64,
}

#[derive(Clone, Debug)]
pub struct BookLinkRecord {
    pub id: i64,
    pub edition_id: Option<i64>,
    pub source_key: String,
    pub link_type: String,
    pub url: String,
    pub region_code: String,
    pub is_user_owned: bool,
    pub is_preferred: bool,
    pub refreshed_at: String,
}

#[derive(Clone, Debug)]
pub struct BookSourceRecord {
    pub source_key: String,
    pub entity_type: String,
    pub external_id: String,
    pub source_url: String,
    pub refreshed_at: String,
    pub last_refresh_status: String,
    pub last_refresh_error: String,
}

#[derive(Clone, Debug)]
pub struct BookProviderStatus {
    pub google_books_configured: bool,
    pub open_library_contact_configured: bool,
    pub hardcover_configured: bool,
}

#[derive(Clone, Debug)]
pub struct BookCatalogSearchResponse {
    pub results: Vec<BookCatalogResult>,
    pub warnings: Vec<String>,
}

// ------------------------------------------------------------ data sources

/// The attribution URL of a book data source.
pub open spec fn data_source_url(source_key: Seq<char>) -> Option<Seq<char>> {
    let k = trim(source_key);
    if k == "google_books"@ {
        Some("https://books.google.com/"@)
    } else if k == "open_library"@ {
        Some("https://openlibrary.org/"@)
    } else if k == "hardcover"@ {
        Some("https://hardcover.app/"@)
    } else {
        None
    }
}

pub fn book_data_source_url(source_key: &str) -> (r: Result<&'static str, MediaError>)
    ensures
        r is Ok <==> data_source_url(source_key@) is Some,
        r matches Ok(u) ==> data_source_url(source_key@) == Some(u@),
        r matches Err(e) ==> e.kind == MediaErrorKind::Validation && e.message@
            == "Unknown book data source."@,
{
    let v = chars_of(source_key);
    let k = trim_chars(&v);
    if chars_eq_str(&k, "google_books") {
        Ok("https://books.google.com/")
    } else if chars_eq_str(&k, "open_library") {
        Ok("https://openlibrary.org/")
    } else if chars_eq_str(&k, "hardcover") {
        Ok("https://hardcover.app/")
    } else {
        Err(MediaError::validation("Unknown book data source."))
    }
}

/// The text of an error raised while opening an external link.
pub fn external_open_error(error: String) -> (r: String)
    ensures
        r@ == "ExternalOpen: "@ + error@,
{
    let e = MediaError::new(MediaErrorKind::ExternalOpen, error);
    let r = e.to_display_string();
    proof {
        reveal_strlit("ExternalOpen");
        reveal_strlit(": ");
        reveal_strlit("ExternalOpen: ");
        assert("ExternalOpen"@ + ": "@ =~= "ExternalOpen: "@);
    }
    r
}

// ------------------------------------------------------------ manual input

/// The outcome of checking an optional ISBN field of the given kind.
pub open spec fn optional_isbn(value: Seq<char>, expected_length: nat) -> Result<Seq<char>, Seq<char>> {
    if trim(value).len() == 0 {
        Ok(seq![])
    } else {
        match spec_normalize_isbn(value) {
            None => Err("ISBN-"@ + decimal(expected_length) + " is invalid."@),
            Some(n) => if n.len() != expected_length {
                Err("Expected an ISBN-"@ + decimal(expected_length) + "."@)
            } else {
                Ok(n)
            },
        }
    }
}

pub fn normalize_optional_isbn(value: &str, expected_length: usize) -> (r: Result<String, MediaError>)
    ensures
        match r {
            Ok(s) => optional_isbn(value@, expected_length as nat) == Ok::<Seq<char>, Seq<char>>(s@),
            Err(e) => e.kind == MediaErrorKind::Validation && optional_isbn(
                value@,
                expected_length as nat,
            ) == Err::<Seq<char>, Seq<char>>(e.message@),
        },
{
    let v = chars_of(value);
    let t = trim_chars(&v);
    if t.len() == 0 {
        return Ok(String::new());
    }
    match normalize_isbn_chars(&v) {
        None => {
            let mut m = chars_of("ISBN-");
            let d = u64_to_decimal(expected_length as u64);
            extend_chars(&mut m, &d);
            extend_str(&mut m, " is invalid.");
            let s = string_of(&m);
            Err(MediaError::validation(s.as_str()))
        },
        Some(n) => {
            if n.len() != expected_length {
                let mut m = chars_of("Expected an ISBN-");
                let d = u64_to_decimal(expected_length as u64);
                extend_chars(&mut m, &d);
                extend_str(&mut m, ".");
                let s = string_of(&m);
                Err(MediaError::validation(s.as_str()))
            } else {
                Ok(string_of(&n))
            }
        },
    }
}

/// An empty value, or an accepted http or https URL.
pub fn validate_optional_url(value: &str) -> (r: Result<String, MediaError>)
    ensures
        trim(value@).len() == 0 ==> (r matches Ok(s) && s@.len() == 0),
        trim(value@).len() > 0 ==> (r is Ok <==> http_url_error(value@) is None),
        trim(value@).len() > 0 ==> (r matches Ok(s) ==> s@ == trim(value@)),
        trim(value@).len() > 0 ==> (r matches Err(e) ==> e.kind == MediaErrorKind::Validation
            && Some(e.message@) == http_url_error(value@)),
{
    let v = chars_of(value);
    let t = trim_chars(&v);
    if t.len() == 0 {
        Ok(String::new())
    } else {
        validate_http_url(value)
    }
}

pub open spec fn is_book_link_type(value: Seq<char>) -> bool {
    let k = upper_ascii(trim(value));
    k == "INFO"@ || k == "PREVIEW"@ || k == "READ"@ || k == "BORROW"@ || k == "BUY"@ || k
        == "OTHER"@
}

pub fn validate_link_type(value: &str) -> (r: Result<(), MediaError>)
    ensures
        r is Ok <==> is_book_link_type(value@),
        r matches Err(e) ==> e.kind == MediaErrorKind::Validation && e.message@
            == "Book link type must be INFO, PREVIEW, READ, BORROW, BUY, or OTHER."@,
{
    let k = normalized_key(value);
    if chars_eq_str(&k, "INFO") || chars_eq_str(&k, "PREVIEW") || chars_eq_str(&k, "READ")
        || chars_eq_str(&k, "BORROW") || chars_eq_str(&k, "BUY") || chars_eq_str(&k, "OTHER") {
        Ok(())
    } else {
        Err(
            MediaError::validation(
                "Book link type must be INFO, PREVIEW, READ, BORROW, BUY, or OTHER.",
            ),
        )
    }
}

/// A book link needs an http or https URL and a known link type; the URL is
/// checked first.
pub fn validate_book_link(input: &BookLinkInput) -> (r: Result<(), MediaError>)
    ensures
        r is Ok <==> http_url_error(input.url@) is None && is_book_link_type(input.link_type@),
        r matches Err(e) ==> e.kind == MediaErrorKind::Validation,
        http_url_error(input.url@) matches Some(m) ==> (r matches Err(e) && e.message@ == m),
{
    match validate_http_url(input.url.as_str()) {
        Err(e) => Err(e),
        Ok(_) => validate_link_type(input.link_type.as_str()),
    }
}

} // verus!
