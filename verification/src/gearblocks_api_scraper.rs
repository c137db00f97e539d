//! Reading the GearBlocks scripting API out of its published Doxygen pages:
//! type titles, member tables, parameter lists and enumerations.
use crate::markup::{
    seq_lt, after, after_chars, before, before_chars, between, between_chars, find_in, rfind_in,
    second_piece, second_piece_chars, tag_body, tag_body_chars, tag_text, tag_text_chars,
};
use crate::text::{
    chars_eq, chars_eq_str, chars_of, keep_nonempty, keep_some, contains, contains_str, ends_with, ends_with_str, extend_chars,
    extend_str, find, is_whitespace, is_ws, replace_all, replace_str, rfind, slice_of, squeeze_ws,
    squeeze_ws_chars, starts_with, starts_with_str, string_of, to_lowercase_chars, trim,
    trim_chars, unicode_lowercase, views,
};
use vstd::prelude::*;

verus! {

/// The root that relative documentation links are resolved against.
pub const DOCS_ROOT: &'static str = "https://www.gearblocksgame.com/apidoc/";

/// The class-hierarchy index page.
pub const HIERARCHY_PAGE: &'static str = "https://www.gearblocksgame.com/apidoc/hierarchy.html";

/// The namespace index page.
pub const NAMESPACES_PAGE: &'static str = "https://www.gearblocksgame.com/apidoc/namespaces.html";

/// The source label recorded with an import.
pub const SOURCE: &'static str = "official-docs";

/// The version recorded when the pages do not name their generator.
pub const SOURCE_VERSION_FALLBACK: &'static str = "doxygen";

#[derive(Clone, Debug)]
pub struct GearBlocksApiImportResult {
    pub source: String,
    pub source_version: String,
    pub docs_root: String,
    pub fetched_pages: usize,
    pub imported_type_count: usize,
    pub imported_member_count: usize,
    pub imported_parameter_count: usize,
    pub imported_enum_value_count: usize,
}

#[derive(Clone, Debug)]
pub struct GearBlocksApiScrape {
    pub source: String,
    pub source_version: String,
    pub docs_root: String,
    pub fetched_pages: usize,
    pub types: Vec<GearBlocksApiScrapedType>,
}

#[derive(Clone, Debug)]
pub struct GearBlocksApiScrapedType {
    pub namespace: String,
    pub api_type_name: String,
    pub type_kind: String,
    pub docs_url: String,
    pub notes: String,
    pub members: Vec<GearBlocksApiScrapedMember>,
    pub enum_values: Vec<GearBlocksApiScrapedEnumValue>,
}

#[derive(Clone, Debug)]
pub struct GearBlocksApiScrapedMember {
    pub member_key: String,
    pub member_name: String,
    pub signature: String,
    pub member_kind: String,
    pub return_type: String,
    pub is_readable: bool,
    pub is_writable: bool,
    pub is_invokable: bool,
    pub is_mutating: bool,
    pub docs_url: String,
    pub notes: String,
    pub parameters: Vec<GearBlocksApiScrapedParameter>,
}

#[derive(Clone, Debug)]
pub struct GearBlocksApiScrapedParameter {
    pub position: i64,
    pub parameter_name: String,
    pub parameter_type: String,
    pub default_value: String,
    pub is_optional: bool,
}

#[derive(Clone, Debug)]
pub struct GearBlocksApiScrapedEnumValue {
    pub position: i64,
    pub value_name: String,
    pub numeric_value: String,
    pub lua_name: String,
    pub description: String,
}

/// A parameter as plain values: position, name, type, default, optional.
pub type ParameterView = (int, Seq<char>, Seq<char>, Seq<char>, bool);

/// An enumeration value as plain values: position, name, number, Lua name,
/// description.
pub type EnumValueView = (int, Seq<char>, Seq<char>, Seq<char>, Seq<char>);

impl View for GearBlocksApiScrapedParameter {
    type V = ParameterView;

    open spec fn view(&self) -> ParameterView {
        (
            self.position as int,
            self.parameter_name@,
            self.parameter_type@,
            self.default_value@,
            self.is_optional,
        )
    }
}

impl View for GearBlocksApiScrapedEnumValue {
    type V = EnumValueView;

    open spec fn view(&self) -> EnumValueView {
        (
            self.position as int,
            self.value_name@,
            self.numeric_value@,
            self.lua_name@,
            self.description@,
        )
    }
}

pub open spec fn parameter_views(v: Seq<GearBlocksApiScrapedParameter>) -> Seq<ParameterView> {
    v.map_values(|p: GearBlocksApiScrapedParameter| p@)
}

pub open spec fn enum_value_views(v: Seq<GearBlocksApiScrapedEnumValue>) -> Seq<EnumValueView> {
    v.map_values(|p: GearBlocksApiScrapedEnumValue| p@)
}

// ------------------------------------------------------------ text cleanup

/// The entities the documentation pages use, decoded, in the fixed order in
/// which they are replaced.
pub open spec fn decoded(s: Seq<char>) -> Seq<char> {
    let s = replace_all(s, "&#160;"@, " "@);
    let s = replace_all(s, "&nbsp;"@, " "@);
    let s = replace_all(s, "&lt;"@, "<"@);
    let s = replace_all(s, "&gt;"@, ">"@);
    let s = replace_all(s, "&amp;"@, "&"@);
    let s = replace_all(s, "&quot;"@, "\""@);
    let s = replace_all(s, "&#39;"@, "'"@);
    let s = replace_all(s, "&#9670;"@, " "@);
    let s = replace_all(s, "&#9658;"@, " "@);
    replace_all(s, "&#9660;"@, " "@)
}

/// The readable text of a fragment: tags dropped (each `>` leaving a
/// space), entities decoded, runs of whitespace collapsed to one space and
/// the ends trimmed.
pub open spec fn html_text(s: Seq<char>) -> Seq<char> {
    squeeze_ws(decoded(tag_text(s).0))
}

pub fn decode_entities_chars(v: &Vec<char>) -> (r: Vec<char>)
    ensures
        r@ == decoded(v@),
{
    proof {
        reveal_strlit("&#160;");
        reveal_strlit("&nbsp;");
        reveal_strlit("&lt;");
        reveal_strlit("&gt;");
        reveal_strlit("&amp;");
        reveal_strlit("&quot;");
        reveal_strlit("&#39;");
        reveal_strlit("&#9670;");
        reveal_strlit("&#9658;");
        reveal_strlit("&#9660;");
    }
    let s = replace_str(v, "&#160;", " ");
    let s = replace_str(&s, "&nbsp;", " ");
    let s = replace_str(&s, "&lt;", "<");
    let s = replace_str(&s, "&gt;", ">");
    let s = replace_str(&s, "&amp;", "&");
    let s = replace_str(&s, "&quot;", "\"");
    let s = replace_str(&s, "&#39;", "'");
    let s = replace_str(&s, "&#9670;", " ");
    let s = replace_str(&s, "&#9658;", " ");
    replace_str(&s, "&#9660;", " ")
}

pub fn decode_entities(value: &str) -> (r: String)
    ensures
        r@ == decoded(value@),
{
    let v = chars_of(value);
    string_of(&decode_entities_chars(&v))
}

pub fn strip_html_chars(v: &Vec<char>) -> (r: Vec<char>)
    ensures
        r@ == html_text(v@),
{
    let t = tag_text_chars(v);
    let d = decode_entities_chars(&t);
    squeeze_ws_chars(&d)
}

pub fn strip_html(value: &str) -> (r: String)
    ensures
        r@ == html_text(value@),
{
    let v = chars_of(value);
    string_of(&strip_html_chars(&v))
}

/// A type name with its angle-bracket entities decoded and its spacing
/// normalised.
pub open spec fn normalized_type_name(s: Seq<char>) -> Seq<char> {
    let s = replace_all(s, " &lt; "@, "<"@);
    let s = replace_all(s, " &gt;"@, ">"@);
    let s = replace_all(s, "&lt;"@, "<"@);
    let s = replace_all(s, "&gt;"@, ">"@);
    let s = squeeze_ws(s);
    let s = replace_all(s, "< "@, "<"@);
    replace_all(s, " >"@, ">"@)
}

pub fn normalize_type_name_chars(v: &Vec<char>) -> (r: Vec<char>)
    ensures
        r@ == normalized_type_name(v@),
{
    proof {
        reveal_strlit(" &lt; ");
        reveal_strlit(" &gt;");
        reveal_strlit("&lt;");
        reveal_strlit("&gt;");
        reveal_strlit("< ");
        reveal_strlit(" >");
    }
    let s = replace_str(v, " &lt; ", "<");
    let s = replace_str(&s, " &gt;", ">");
    let s = replace_str(&s, "&lt;", "<");
    let s = replace_str(&s, "&gt;", ">");
    let s = squeeze_ws_chars(&s);
    let s = replace_str(&s, "< ", "<");
    replace_str(&s, " >", ">")
}

pub fn normalize_type_name(value: &str) -> (r: String)
    ensures
        r@ == normalized_type_name(value@),
{
    let v = chars_of(value);
    string_of(&normalize_type_name_chars(&v))
}

/// A member's declared type: non-breaking spaces made plain, the `static`
/// marker removed, whitespace collapsed.
pub open spec fn cleaned_member_type(s: Seq<char>) -> Seq<char> {
    squeeze_ws(replace_all(replace_all(s, seq!['\u{a0}'], seq![' ']), " static"@, seq![]))
}

pub fn clean_member_type_chars(v: &Vec<char>) -> (r: Vec<char>)
    ensures
        r@ == cleaned_member_type(v@),
{
    proof {
        reveal_strlit(" static");
    }
    let nbsp = vec!['\u{a0}'];
    let space = vec![' '];
    let s = crate::text::replace_chars(v, &nbsp, &space);
    let s = replace_str(&s, " static", "");
    proof {
        reveal_strlit("");
        assert(""@ =~= Seq::<char>::empty());
        assert(nbsp@ =~= seq!['\u{a0}']);
        assert(space@ =~= seq![' ']);
    }
    squeeze_ws_chars(&s)
}

pub fn clean_member_type(value: &str) -> (r: String)
    ensures
        r@ == cleaned_member_type(value@),
{
    let v = chars_of(value);
    string_of(&clean_member_type_chars(&v))
}

/// Splits a dotted type name at its last dot into namespace and type name.
pub open spec fn split_type_name(full: Seq<char>) -> (Seq<char>, Seq<char>) {
    let n = normalized_type_name(full);
    match rfind(n, seq!['.']) {
        Some(i) => (trim(n.take(i)), trim(n.skip(i + 1))),
        None => (seq![], n),
    }
}

pub fn split_full_type_name_chars(full: &Vec<char>) -> (r: (Vec<char>, Vec<char>))
    ensures
        (r.0@, r.1@) == split_type_name(full@),
{
    let n = normalize_type_name_chars(full);
    let dot = vec!['.'];
    assert(dot@ =~= seq!['.']);
    match rfind_in(&n, &dot) {
        Some(i) => {
            let head = slice_of(&n, 0, i);
            let tail = slice_of(&n, i + 1, n.len());
            assert(head@ =~= n@.take(i as int));
            assert(tail@ =~= n@.skip(i + 1));
            (trim_chars(&head), trim_chars(&tail))
        },
        None => (Vec::new(), n),
    }
}

pub fn split_full_type_name(full_name: &str) -> (r: (String, String))
    ensures
        (r.0@, r.1@) == split_type_name(full_name@),
{
    let v = chars_of(full_name);
    let (a, b) = split_full_type_name_chars(&v);
    (string_of(&a), string_of(&b))
}

// ------------------------------------------------------------ page pieces

/// The text of a page's `<div class="title">`, if it has a non-empty one.
pub open spec fn div_title(html: Seq<char>) -> Option<Seq<char>> {
    match between(html, "<div class=\"title\">"@, "</div>"@) {
        Some(t) => if html_text(t).len() > 0 {
            Some(html_text(t))
        } else {
            None
        },
        None => None,
    }
}

pub fn extract_div_title_chars(html: &Vec<char>) -> (r: Option<Vec<char>>)
    ensures
        match r {
            Some(x) => div_title(html@) == Some(x@),
            None => div_title(html@) is None,
        },
{
    let open = chars_of("<div class=\"title\">");
    let close = chars_of("</div>");
    match between_chars(html, &open, &close) {
        Some(t) => {
            let s = strip_html_chars(&t);
            if s.len() > 0 {
                Some(s)
            } else {
                None
            }
        },
        None => None,
    }
}

pub fn extract_div_title(html: &str) -> (r: Option<String>)
    ensures
        match r {
            Some(x) => div_title(html@) == Some(x@),
            None => div_title(html@) is None,
        },
{
    let v = chars_of(html);
    match extract_div_title_chars(&v) {
        Some(t) => Some(string_of(&t)),
        None => None,
    }
}

/// What a type page's title says: namespace, type name and the kind named
/// by the title's suffix, for interface, struct and class pages.
pub open spec fn type_page_title(html: Seq<char>) -> Option<(Seq<char>, Seq<char>, Seq<char>)> {
    match div_title(html) {
        Some(title) => {
            let kind = if contains(title, " Interface Reference"@) {
                Some("interface"@)
            } else if contains(title, " Struct Reference"@) {
                Some("struct"@)
            } else if contains(title, " Class Reference"@) {
                Some("class"@)
            } else {
                None
            };
            match kind {
                Some(k) => {
                    let full = replace_all(
                        replace_all(
                            replace_all(title, " Interface Reference"@, seq![]),
                            " Struct Reference"@,
                            seq![],
                        ),
                        " Class Reference"@,
                        seq![],
                    );
                    let (namespace, api_type_name) = split_type_name(full);
                    Some((namespace, api_type_name, k))
                },
                None => None,
            }
        },
        None => None,
    }
}

pub fn parse_type_page_title(html: &str) -> (r: Option<(String, String, String)>)
    ensures
        match r {
            Some(x) => type_page_title(html@) == Some((x.0@, x.1@, x.2@)),
            None => type_page_title(html@) is None,
        },
{
    let v = chars_of(html);
    let title = match extract_div_title_chars(&v) {
        Some(t) => t,
        None => return None,
    };
    let kind = if contains_str(&title, " Interface Reference") {
        "interface"
    } else if contains_str(&title, " Struct Reference") {
        "struct"
    } else if contains_str(&title, " Class Reference") {
        "class"
    } else {
        return None;
    };
    proof {
        reveal_strlit(" Interface Reference");
        reveal_strlit(" Struct Reference");
        reveal_strlit(" Class Reference");
        reveal_strlit("");
        assert(""@ =~= Seq::<char>::empty());
    }
    let full = replace_str(&title, " Interface Reference", "");
    let full = replace_str(&full, " Struct Reference", "");
    let full = replace_str(&full, " Class Reference", "");
    let (namespace, api_type_name) = split_full_type_name_chars(&full);
    Some((string_of(&namespace), string_of(&api_type_name), String::from_str(kind)))
}

/// A namespace page's title without its " Namespace Reference" suffix,
/// trimmed, if anything is left.
pub open spec fn namespace_title(html: Seq<char>) -> Option<Seq<char>> {
    match div_title(html) {
        Some(title) => {
            let t = trim(replace_all(title, " Namespace Reference"@, seq![]));
            if t.len() > 0 {
                Some(t)
            } else {
                None
            }
        },
        None => None,
    }
}

pub fn parse_namespace_title_chars(html: &Vec<char>) -> (r: Option<Vec<char>>)
    ensures
        match r {
            Some(x) => namespace_title(html@) == Some(x@),
            None => namespace_title(html@) is None,
        },
{
    match extract_div_title_chars(html) {
        Some(title) => {
            proof {
                reveal_strlit(" Namespace Reference");
                reveal_strlit("");
                assert(""@ =~= Seq::<char>::empty());
            }
            let t = replace_str(&title, " Namespace Reference", "");
            let t = trim_chars(&t);
            if t.len() > 0 {
                Some(t)
            } else {
                None
            }
        },
        None => None,
    }
}

pub fn parse_namespace_title(html: &str) -> (r: Option<String>)
    ensures
        match r {
            Some(x) => namespace_title(html@) == Some(x@),
            None => namespace_title(html@) is None,
        },
{
    let v = chars_of(html);
    match parse_namespace_title_chars(&v) {
        Some(t) => Some(string_of(&t)),
        None => None,
    }
}

/// The readable text of a type page's first text block, if non-empty.
pub open spec fn type_summary(html: Seq<char>) -> Option<Seq<char>> {
    match between(html, "<div class=\"textblock\">"@, "</div>"@) {
        Some(t) => if html_text(t).len() > 0 {
            Some(html_text(t))
        } else {
            None
        },
        None => None,
    }
}

pub fn parse_type_summary(html: &str) -> (r: Option<String>)
    ensures
        match r {
            Some(x) => type_summary(html@) == Some(x@),
            None => type_summary(html@) is None,
        },
{
    let v = chars_of(html);
    let open = chars_of("<div class=\"textblock\">");
    let close = chars_of("</div>");
    match between_chars(&v, &open, &close) {
        Some(t) => {
            let s = strip_html_chars(&t);
            if s.len() > 0 {
                Some(string_of(&s))
            } else {
                None
            }
        },
        None => None,
    }
}

/// The generator named in the page footer: the readable text after the
/// first "Generated by" and before the next "</small>", if non-empty.
pub open spec fn source_version(html: Seq<char>) -> Option<Seq<char>> {
    match second_piece(html, "Generated by"@) {
        Some(fragment) => {
            let text = html_text(before(fragment, "</small>"@));
            if text.len() > 0 {
                Some(text)
            } else {
                None
            }
        },
        None => None,
    }
}

pub fn parse_source_version(html: &str) -> (r: Option<String>)
    ensures
        match r {
            Some(x) => source_version(html@) == Some(x@),
            None => source_version(html@) is None,
        },
{
    let v = chars_of(html);
    let marker = chars_of("Generated by");
    let close = chars_of("</small>");
    match second_piece_chars(&v, &marker) {
        Some(fragment) => {
            let text = strip_html_chars(&before_chars(&fragment, &close));
            if text.len() > 0 {
                Some(string_of(&text))
            } else {
                None
            }
        },
        None => None,
    }
}

// ------------------------------------------------------------ members

/// The member kind that a (lower-cased) section heading announces, or
/// nothing for sections that hold no members.
pub open spec fn section_member_kind(section: Seq<char>) -> Seq<char> {
    if contains(section, "member function"@) || contains(section, "methods"@) {
        "method"@
    } else if contains(section, "properties"@) {
        "property"@
    } else if contains(section, "attribute"@) || contains(section, "data fields"@) {
        "field"@
    } else {
        seq![]
    }
}

pub fn member_kind_from_section(section: &str) -> (r: String)
    ensures
        r@ == section_member_kind(section@),
{
    let v = chars_of(section);
    if contains_str(&v, "member function") || contains_str(&v, "methods") {
        String::from_str("method")
    } else if contains_str(&v, "properties") {
        String::from_str("property")
    } else if contains_str(&v, "attribute") || contains_str(&v, "data fields") {
        String::from_str("field")
    } else {
        String::new()
    }
}

/// What a section heading announces: headings about member functions or
/// methods hold methods; otherwise headings about properties hold
/// properties; otherwise headings about attributes (such as "public
/// attributes") or data fields hold fields; any other heading holds no
/// members.
pub proof fn section_headings_announce_member_kinds(section: Seq<char>)
    ensures
        contains(section, "member function"@) || contains(section, "methods"@)
            ==> section_member_kind(section) == "method"@,
        !contains(section, "member function"@) && !contains(section, "methods"@) && contains(
            section,
            "properties"@,
        ) ==> section_member_kind(section) == "property"@,
        !contains(section, "member function"@) && !contains(section, "methods"@) && !contains(
            section,
            "properties"@,
        ) && (contains(section, "attribute"@) || contains(section, "data fields"@))
            ==> section_member_kind(section) == "field"@,
        !contains(section, "member function"@) && !contains(section, "methods"@) && !contains(
            section,
            "properties"@,
        ) && !contains(section, "attribute"@) && !contains(section, "data fields"@)
            ==> section_member_kind(section).len() == 0,
{
}

/// A member's signature: a method's name followed by its parameter list
/// as the row shows it (or empty brackets); any other member's name.
pub open spec fn signature_of(kind: Seq<char>, name: Seq<char>, right_text: Seq<char>) -> Seq<char> {
    if kind != "method"@ {
        name
    } else {
        match find(right_text, seq!['(']) {
            Some(k) => name + replace_all(trim(right_text.skip(k)), " )"@, ")"@),
            None => name + "()"@,
        }
    }
}

pub fn member_signature_chars(kind: &Vec<char>, name: &Vec<char>, right_text: &Vec<char>) -> (r:
    Vec<char>)
    ensures
        r@ == signature_of(kind@, name@, right_text@),
{
    if !chars_eq_str(kind, "method") {
        return slice_of(name, 0, name.len());
    }
    let open = vec!['('];
    assert(open@ =~= seq!['(']);
    let mut out = slice_of(name, 0, name.len());
    assert(out@ =~= name@);
    match find_in(right_text, &open) {
        Some(k) => {
            let tail = slice_of(right_text, k, right_text.len());
            assert(tail@ =~= right_text@.skip(k as int));
            let t = trim_chars(&tail);
            proof {
                reveal_strlit(" )");
            }
            let suffix = replace_str(&t, " )", ")");
            extend_chars(&mut out, &suffix);
        },
        None => {
            extend_str(&mut out, "()");
        },
    }
    out
}

pub fn member_signature(member_kind: &str, member_name: &str, right_text: &str) -> (r: String)
    ensures
        r@ == signature_of(member_kind@, member_name@, right_text@),
{
    let k = chars_of(member_kind);
    let n = chars_of(member_name);
    let t = chars_of(right_text);
    string_of(&member_signature_chars(&k, &n, &t))
}

/// The key that tells overloads apart: the name plus the signature from
/// its opening bracket on.
pub open spec fn key_of(name: Seq<char>, signature: Seq<char>) -> Seq<char> {
    match find(signature, seq!['(']) {
        Some(k) => name + signature.skip(k),
        None => name,
    }
}

pub fn member_key_chars(name: &Vec<char>, signature: &Vec<char>) -> (r: Vec<char>)
    ensures
        r@ == key_of(name@, signature@),
{
    let open = vec!['('];
    assert(open@ =~= seq!['(']);
    let mut out = slice_of(name, 0, name.len());
    assert(out@ =~= name@);
    match find_in(signature, &open) {
        Some(k) => {
            let tail = slice_of(signature, k, signature.len());
            assert(tail@ =~= signature@.skip(k as int));
            extend_chars(&mut out, &tail);
        },
        None => {},
    }
    out
}

pub fn member_key(member_name: &str, signature: &str) -> (r: String)
    ensures
        r@ == key_of(member_name@, signature@),
{
    let n = chars_of(member_name);
    let s = chars_of(signature);
    string_of(&member_key_chars(&n, &s))
}

/// Whether a lower-cased member name starts like a call that changes the
/// scene: add, assign, charge, clear, create, delete, destroy, discharge,
/// duplicate, freeze, invoke, move, replace, set, spawn, sync or toggle.
pub open spec fn mutating_prefix(lower: Seq<char>) -> bool {
    ||| starts_with(lower, "add"@)
    ||| starts_with(lower, "assign"@)
    ||| starts_with(lower, "charge"@)
    ||| starts_with(lower, "clear"@)
    ||| starts_with(lower, "create"@)
    ||| starts_with(lower, "delete"@)
    ||| starts_with(lower, "destroy"@)
    ||| starts_with(lower, "discharge"@)
    ||| starts_with(lower, "duplicate"@)
    ||| starts_with(lower, "freeze"@)
    ||| starts_with(lower, "invoke"@)
    ||| starts_with(lower, "move"@)
    ||| starts_with(lower, "replace"@)
    ||| starts_with(lower, "set"@)
    ||| starts_with(lower, "spawn"@)
    ||| starts_with(lower, "sync"@)
    ||| starts_with(lower, "toggle"@)
}

/// Tests a member name that is already lower-cased for a mutating prefix.
pub fn has_mutating_prefix(lower: &str) -> (r: bool)
    ensures
        r == mutating_prefix(lower@),
{
    let v = chars_of(lower);
    has_mutating_prefix_chars(&v)
}

pub fn has_mutating_prefix_chars(v: &Vec<char>) -> (r: bool)
    ensures
        r == mutating_prefix(v@),
{
    starts_with_str(v, "add") || starts_with_str(v, "assign") || starts_with_str(v, "charge")
        || starts_with_str(v, "clear") || starts_with_str(v, "create") || starts_with_str(
        v,
        "delete",
    ) || starts_with_str(v, "destroy") || starts_with_str(v, "discharge") || starts_with_str(
        v,
        "duplicate",
    ) || starts_with_str(v, "freeze") || starts_with_str(v, "invoke") || starts_with_str(
        v,
        "move",
    ) || starts_with_str(v, "replace") || starts_with_str(v, "set") || starts_with_str(v, "spawn")
        || starts_with_str(v, "sync") || starts_with_str(v, "toggle")
}

/// Whether a member changes the scene: its Unicode-lower-cased name has a
/// mutating prefix.
pub fn is_mutating_member(_type_name: &str, member_name: &str) -> (r: bool)
    ensures
        r == mutating_prefix(unicode_lowercase(member_name@)),
{
    let v = chars_of(member_name);
    let lower = to_lowercase_chars(&v);
    has_mutating_prefix_chars(&lower)
}

/// The type kind that a documentation file name announces, or nothing.
pub open spec fn href_kind(href: Seq<char>) -> Seq<char> {
    if starts_with(href, "class_"@) {
        "class"@
    } else if starts_with(href, "interface_"@) {
        "interface"@
    } else if starts_with(href, "struct_"@) {
        "struct"@
    } else {
        seq![]
    }
}

pub fn docs_kind_from_href(href: &str) -> (r: &'static str)
    ensures
        r@ == href_kind(href@),
{
    let v = chars_of(href);
    if starts_with_str(&v, "class_") {
        "class"
    } else if starts_with_str(&v, "interface_") {
        "interface"
    } else if starts_with_str(&v, "struct_") {
        "struct"
    } else {
        proof {
            reveal_strlit("");
            assert(""@ =~= Seq::<char>::empty());
        }
        ""
    }
}

pub fn docs_kind_chars(href: &Vec<char>) -> (r: Vec<char>)
    ensures
        r@ == href_kind(href@),
{
    if starts_with_str(href, "class_") {
        chars_of("class")
    } else if starts_with_str(href, "interface_") {
        chars_of("interface")
    } else if starts_with_str(href, "struct_") {
        chars_of("struct")
    } else {
        Vec::new()
    }
}

// ------------------------------------------------------------ links and cells

/// The target of the first `href="..."` in a fragment.
pub open spec fn first_link(html: Seq<char>) -> Option<Seq<char>> {
    match second_piece(html, "href=\""@) {
        Some(fragment) => Some(before(fragment, seq!['"'])),
        None => None,
    }
}

pub fn first_href_chars(html: &Vec<char>) -> (r: Option<Vec<char>>)
    ensures
        match r {
            Some(x) => first_link(html@) == Some(x@),
            None => first_link(html@) is None,
        },
{
    let marker = chars_of("href=\"");
    let quote = vec!['"'];
    assert(quote@ =~= seq!['"']);
    match second_piece_chars(html, &marker) {
        Some(fragment) => Some(before_chars(&fragment, &quote)),
        None => None,
    }
}

pub fn first_href(html: &str) -> (r: Option<String>)
    ensures
        match r {
            Some(x) => first_link(html@) == Some(x@),
            None => first_link(html@) is None,
        },
{
    let v = chars_of(html);
    match first_href_chars(&v) {
        Some(h) => Some(string_of(&h)),
        None => None,
    }
}

/// The text of the first anchor element.
pub open spec fn first_anchor(html: Seq<char>) -> Option<Seq<char>> {
    match find(html, "<a "@) {
        Some(a) => tag_body(html, a, "</a>"@),
        None => None,
    }
}

/// The text of the last anchor element.
pub open spec fn last_anchor(html: Seq<char>) -> Option<Seq<char>> {
    match rfind(html, "<a "@) {
        Some(a) => tag_body(html, a, "</a>"@),
        None => None,
    }
}

pub fn first_anchor_text_chars(html: &Vec<char>) -> (r: Option<Vec<char>>)
    ensures
        match r {
            Some(x) => first_anchor(html@) == Some(x@),
            None => first_anchor(html@) is None,
        },
{
    let open = chars_of("<a ");
    let close = chars_of("</a>");
    match find_in(html, &open) {
        Some(a) => tag_body_chars(html, a, &close),
        None => None,
    }
}

pub fn last_anchor_text_chars(html: &Vec<char>) -> (r: Option<Vec<char>>)
    ensures
        match r {
            Some(x) => last_anchor(html@) == Some(x@),
            None => last_anchor(html@) is None,
        },
{
    let open = chars_of("<a ");
    let close = chars_of("</a>");
    match rfind_in(html, &open) {
        Some(a) => tag_body_chars(html, a, &close),
        None => None,
    }
}

pub fn first_anchor_text(html: &str) -> (r: Option<String>)
    ensures
        match r {
            Some(x) => first_anchor(html@) == Some(x@),
            None => first_anchor(html@) is None,
        },
{
    let v = chars_of(html);
    match first_anchor_text_chars(&v) {
        Some(t) => Some(string_of(&t)),
        None => None,
    }
}

pub fn last_anchor_text(html: &str) -> (r: Option<String>)
    ensures
        match r {
            Some(x) => last_anchor(html@) == Some(x@),
            None => last_anchor(html@) is None,
        },
{
    let v = chars_of(html);
    match last_anchor_text_chars(&v) {
        Some(t) => Some(string_of(&t)),
        None => None,
    }
}

/// The content of the first table cell whose tag names `class_name`.
pub open spec fn cell_by_class(row: Seq<char>, class_name: Seq<char>) -> Option<Seq<char>> {
    match find(row, class_name) {
        Some(c) => tag_body(row, c, "</td>"@),
        None => None,
    }
}

pub fn extract_table_cell_by_class_chars(row: &Vec<char>, class_name: &Vec<char>) -> (r: Option<
    Vec<char>,
>)
    ensures
        match r {
            Some(x) => cell_by_class(row@, class_name@) == Some(x@),
            None => cell_by_class(row@, class_name@) is None,
        },
{
    let close = chars_of("</td>");
    match find_in(row, class_name) {
        Some(c) => tag_body_chars(row, c, &close),
        None => None,
    }
}

pub fn extract_table_cell_by_class(row: &str, class_name: &str) -> (r: Option<String>)
    ensures
        match r {
            Some(x) => cell_by_class(row@, class_name@) == Some(x@),
            None => cell_by_class(row@, class_name@) is None,
        },
{
    let v = chars_of(row);
    let c = chars_of(class_name);
    match extract_table_cell_by_class_chars(&v, &c) {
        Some(t) => Some(string_of(&t)),
        None => None,
    }
}

/// The readable text of a row's description cell, if non-empty.
pub open spec fn desc_cell(row: Seq<char>) -> Option<Seq<char>> {
    match cell_by_class(row, "desc"@) {
        Some(cell) => if html_text(cell).len() > 0 {
            Some(html_text(cell))
        } else {
            None
        },
        None => None,
    }
}

pub fn extract_desc_cell_chars(row: &Vec<char>) -> (r: Option<Vec<char>>)
    ensures
        match r {
            Some(x) => desc_cell(row@) == Some(x@),
            None => desc_cell(row@) is None,
        },
{
    let class_name = chars_of("desc");
    match extract_table_cell_by_class_chars(row, &class_name) {
        Some(cell) => {
            let t = strip_html_chars(&cell);
            if t.len() > 0 {
                Some(t)
            } else {
                None
            }
        },
        None => None,
    }
}

pub fn extract_desc_cell(row: &str) -> (r: Option<String>)
    ensures
        match r {
            Some(x) => desc_cell(row@) == Some(x@),
            None => desc_cell(row@) is None,
        },
{
    let v = chars_of(row);
    match extract_desc_cell_chars(&v) {
        Some(t) => Some(string_of(&t)),
        None => None,
    }
}

/// `s` with every leading copy of `p` removed, as `trim_start_matches`.
pub open spec fn strip_prefixes(s: Seq<char>, p: Seq<char>) -> Seq<char>
    decreases s.len(),
{
    if p.len() > 0 && starts_with(s, p) {
        strip_prefixes(s.skip(p.len() as int), p)
    } else {
        s
    }
}

/// A documentation link made absolute: full URLs stay, anything else is
/// resolved against the documentation root after dropping leading "./".
pub open spec fn absolute_docs_url(href: Seq<char>) -> Seq<char> {
    if starts_with(href, "http://"@) || starts_with(href, "https://"@) {
        href
    } else {
        DOCS_ROOT@ + strip_prefixes(href, "./"@)
    }
}

proof fn lemma_strip_dot_slash(s: Seq<char>)
    ensures
        s.len() >= 2 && s[0] == '.' && s[1] == '/' ==> strip_prefixes(s, "./"@) == strip_prefixes(
            s.skip(2),
            "./"@,
        ),
        !(s.len() >= 2 && s[0] == '.' && s[1] == '/') ==> strip_prefixes(s, "./"@) == s,
{
    reveal_strlit("./");
    if s.len() >= 2 && s[0] == '.' && s[1] == '/' {
        assert(s.take(2) =~= "./"@);
    } else if s.len() >= 2 {
        if starts_with(s, "./"@) {
            assert(s.take(2)[0] == s[0]);
            assert(s.take(2)[1] == s[1]);
        }
    }
}

pub fn absolutize_docs_url_chars(href: &Vec<char>) -> (r: Vec<char>)
    ensures
        r@ == absolute_docs_url(href@),
{
    if starts_with_str(href, "http://") || starts_with_str(href, "https://") {
        return slice_of(href, 0, href.len());
    }
    let mut i: usize = 0;
    assert(href@.skip(0) =~= href@);
    while i < href.len() && href.len() - i >= 2 && href[i] == '.' && href[i + 1] == '/'
        invariant
            i <= href.len(),
            strip_prefixes(href@, "./"@) == strip_prefixes(href@.skip(i as int), "./"@),
        decreases href.len() - i,
    {
        proof {
            lemma_strip_dot_slash(href@.skip(i as int));
            assert(href@.skip(i as int).skip(2) =~= href@.skip(i + 2));
        }
        i = i + 2;
    }
    proof {
        lemma_strip_dot_slash(href@.skip(i as int));
    }
    let mut out = chars_of(DOCS_ROOT);
    let rest = slice_of(href, i, href.len());
    assert(rest@ =~= href@.skip(i as int));
    extend_chars(&mut out, &rest);
    out
}

pub fn absolutize_docs_url(href: &str) -> (r: String)
    ensures
        r@ == absolute_docs_url(href@),
{
    let v = chars_of(href);
    string_of(&absolutize_docs_url_chars(&v))
}

/// A member link made absolute: an in-page fragment is appended to the
/// type page's URL; anything else is resolved as a documentation link.
pub open spec fn absolute_fragment_url(base_url: Seq<char>, href: Seq<char>) -> Seq<char> {
    if starts_with(href, seq!['#']) {
        base_url + href
    } else {
        absolute_docs_url(href)
    }
}

pub fn absolutize_fragment_url_chars(base_url: &Vec<char>, href: &Vec<char>) -> (r: Vec<char>)
    ensures
        r@ == absolute_fragment_url(base_url@, href@),
{
    proof {
        reveal_strlit("#");
        assert("#"@ =~= seq!['#']);
    }
    if starts_with_str(href, "#") {
        let mut out = slice_of(base_url, 0, base_url.len());
        assert(out@ =~= base_url@);
        extend_chars(&mut out, href);
        out
    } else {
        absolutize_docs_url_chars(href)
    }
}

pub fn absolutize_fragment_url(base_url: &str, href: &str) -> (r: String)
    ensures
        r@ == absolute_fragment_url(base_url@, href@),
{
    let b = chars_of(base_url);
    let h = chars_of(href);
    string_of(&absolutize_fragment_url_chars(&b, &h))
}


// ------------------------------------------------------------ parameters

/// Walks a parameter list left to right: the top-level pieces closed so far
/// (trimmed), the bracket depth, and where the open piece starts.
pub open spec fn param_scan(s: Seq<char>) -> (Seq<Seq<char>>, int, int)
    decreases s.len(),
{
    if s.len() == 0 {
        (seq![], 0, 0)
    } else {
        let (parts, depth, start) = param_scan(s.drop_last());
        let i = s.len() - 1;
        let c = s.last();
        if c == '<' || c == '(' || c == '[' {
            (parts, depth + 1, start)
        } else if c == '>' || c == ')' || c == ']' {
            (parts, depth - 1, start)
        } else if c == ',' && depth == 0 {
            (parts.push(trim(s.subrange(start, i))), depth, i + 1)
        } else {
            (parts, depth, start)
        }
    }
}

/// The parameters of a list, split at the commas that are outside angle,
/// round and square brackets, trimmed, empty ones dropped.
pub open spec fn parameter_parts(s: Seq<char>) -> Seq<Seq<char>> {
    let (parts, _depth, start) = param_scan(s);
    keep_nonempty(parts.push(trim(s.skip(start))))
}

pub fn split_parameters_chars(v: &Vec<char>) -> (r: Vec<Vec<char>>)
    ensures
        views(r@) == parameter_parts(v@),
{
    let mut parts: Vec<Vec<char>> = Vec::new();
    let mut depth: i128 = 0;
    let mut start: usize = 0;
    let mut i: usize = 0;
    while i < v.len()
        invariant
            i <= v.len(),
            (views(parts@), depth as int, start as int) == param_scan(v@.take(i as int)),
            start <= i,
            -(i as int) <= depth <= i,
        decreases v.len() - i,
    {
        let c = v[i];
        proof {
            assert(v@.take(i + 1).drop_last() =~= v@.take(i as int));
            assert(v@.take(i + 1).last() == c);
        }
        if c == '<' || c == '(' || c == '[' {
            depth = depth + 1;
        } else if c == '>' || c == ')' || c == ']' {
            depth = depth - 1;
        } else if c == ',' && depth == 0 {
            let piece = trim_chars(&slice_of(v, start, i));
            assert(v@.take(i + 1).subrange(start as int, i as int) =~= v@.subrange(
                start as int,
                i as int,
            ));
            let ghost before_parts = parts@;
            parts.push(piece);
            assert(views(parts@) =~= views(before_parts).push(piece@));
            start = i + 1;
        }
        i = i + 1;
    }
    assert(v@.take(v.len() as int) =~= v@);
    let last = trim_chars(&slice_of(v, start, v.len()));
    assert(v@.subrange(start as int, v.len() as int) =~= v@.skip(start as int));
    let ghost before_parts = parts@;
    parts.push(last);
    assert(views(parts@) =~= views(before_parts).push(last@));
    let ghost all = views(parts@);
    let mut out: Vec<Vec<char>> = Vec::new();
    let mut j: usize = 0;
    while j < parts.len()
        invariant
            j <= parts.len(),
            all == views(parts@),
            views(out@) == keep_nonempty(all.take(j as int)),
        decreases parts.len() - j,
    {
        assert(all.take(j + 1).drop_last() =~= all.take(j as int));
        assert(all.take(j + 1).last() == parts@[j as int]@);
        if parts[j].len() > 0 {
            let piece = slice_of(&parts[j], 0, parts[j].len());
            assert(piece@ =~= parts@[j as int]@);
            let ghost before_out = out@;
            out.push(piece);
            assert(views(out@) =~= views(before_out).push(piece@));
        }
        j = j + 1;
    }
    assert(all.take(parts.len() as int) =~= all);
    out
}

pub fn split_parameters(params: &str) -> (r: Vec<String>)
    ensures
        r@.map_values(|p: String| p@) == parameter_parts(params@),
{
    let v = chars_of(params);
    let parts = split_parameters_chars(&v);
    let mut out: Vec<String> = Vec::new();
    let mut i: usize = 0;
    while i < parts.len()
        invariant
            i <= parts.len(),
            out@.map_values(|p: String| p@) == views(parts@).take(i as int),
        decreases parts.len() - i,
    {
        let item = string_of(&parts[i]);
        let ghost prev = out@;
        out.push(item);
        assert(out@.map_values(|p: String| p@) =~= prev.map_values(|p: String| p@).push(
            parts@[i as int]@,
        ));
        i = i + 1;
        assert(views(parts@).take(i as int) =~= views(parts@).take(i - 1).push(
            parts@[i - 1]@,
        ));
    }
    assert(views(parts@).take(parts.len() as int) =~= views(parts@));
    out
}

/// The index of the last whitespace character.
pub open spec fn last_ws(s: Seq<char>) -> Option<int>
    decreases s.len(),
{
    if s.len() == 0 {
        None
    } else if is_ws(s.last()) {
        Some(s.len() - 1)
    } else {
        last_ws(s.drop_last())
    }
}

pub proof fn lemma_last_ws(s: Seq<char>)
    ensures
        last_ws(s) matches Some(w) ==> 0 <= w < s.len(),
    decreases s.len(),
{
    if s.len() > 0 && !is_ws(s.last()) {
        lemma_last_ws(s.drop_last());
    }
}

pub fn last_ws_exec(v: &Vec<char>) -> (r: Option<usize>)
    ensures
        match r {
            Some(w) => last_ws(v@) == Some(w as int) && w < v@.len(),
            None => last_ws(v@) is None,
        },
{
    let mut j: usize = v.len();
    assert(v@.take(j as int) =~= v@);
    while j > 0
        invariant
            j <= v.len(),
            last_ws(v@) == last_ws(v@.take(j as int)),
        decreases j,
    {
        assert(v@.take(j as int).last() == v@[j - 1]);
        if is_whitespace(v[j - 1]) {
            return Some(j - 1);
        }
        assert(v@.take(j as int).drop_last() =~= v@.take(j - 1));
        j = j - 1;
    }
    None
}

/// One parameter: an optional `= default`, then the name after the last
/// whitespace and the type before it. Nameless pieces give nothing.
pub open spec fn param_of(position: int, raw: Seq<char>) -> Option<ParameterView> {
    let eq = find(raw, seq!['=']);
    let head = match eq {
        Some(k) => trim(raw.take(k)),
        None => trim(raw),
    };
    let default_value = match eq {
        Some(k) => trim(raw.skip(k + 1)),
        None => seq![],
    };
    let name = match last_ws(head) {
        Some(w) => trim(head.skip(w + 1)),
        None => trim(head),
    };
    let parameter_type = match last_ws(head) {
        Some(w) => trim(head.take(w)),
        None => seq![],
    };
    if name.len() == 0 {
        None
    } else {
        Some((position, name, parameter_type, default_value, eq is Some))
    }
}

pub open spec fn parsed_parameters(parts: Seq<Seq<char>>) -> Seq<Option<ParameterView>> {
    Seq::new(parts.len(), |i: int| param_of((i as i64) as int, parts[i]))
}

/// Whether the last `)` of a signature does not come before its first `(`;
/// the list between them is only defined then.
pub open spec fn parameters_defined(signature: Seq<char>) -> bool {
    match (find(signature, seq!['(']), rfind(signature, seq![')'])) {
        (Some(a), Some(b)) => a < b,
        _ => true,
    }
}

/// The parameters of a method signature: the text between its first `(`
/// and its last `)`, split into parameters.
pub open spec fn parameters_of(signature: Seq<char>) -> Seq<ParameterView> {
    match (find(signature, seq!['(']), rfind(signature, seq![')'])) {
        (Some(a), Some(b)) => if b <= a {
            seq![]
        } else {
            let params = trim(signature.subrange(a + 1, b));
            if params.len() == 0 {
                seq![]
            } else {
                keep_some(parsed_parameters(parameter_parts(params)))
            }
        },
        _ => seq![],
    }
}

pub fn param_of_exec(position: i64, raw: &Vec<char>) -> (r: Option<GearBlocksApiScrapedParameter>)
    ensures
        match r {
            Some(p) => param_of(position as int, raw@) == Some(p@),
            None => param_of(position as int, raw@) is None,
        },
{
    let eq = vec!['='];
    assert(eq@ =~= seq!['=']);
    let found = find_in(raw, &eq);
    let head = match found {
        Some(k) => {
            let h = slice_of(raw, 0, k);
            assert(h@ =~= raw@.take(k as int));
            trim_chars(&h)
        },
        None => trim_chars(raw),
    };
    let default_value = match found {
        Some(k) => {
            let n = raw.len();
            let d = slice_of(raw, k + 1, n);
            assert(d@ =~= raw@.skip(k + 1));
            trim_chars(&d)
        },
        None => Vec::new(),
    };
    let split_at = last_ws_exec(&head);
    let name = match split_at {
        Some(w) => {
            let n = slice_of(&head, w + 1, head.len());
            assert(n@ =~= head@.skip(w + 1));
            trim_chars(&n)
        },
        None => trim_chars(&head),
    };
    let parameter_type = match split_at {
        Some(w) => {
            let t = slice_of(&head, 0, w);
            assert(t@ =~= head@.take(w as int));
            trim_chars(&t)
        },
        None => Vec::new(),
    };
    if name.len() == 0 {
        None
    } else {
        Some(
            GearBlocksApiScrapedParameter {
                position,
                parameter_name: string_of(&name),
                parameter_type: string_of(&parameter_type),
                default_value: string_of(&default_value),
                is_optional: found.is_some(),
            },
        )
    }
}

/// Reads the parameter list of a method signature.
pub fn parse_parameters(signature: &str) -> (r: Vec<GearBlocksApiScrapedParameter>)
    requires
        parameters_defined(signature@),
    ensures
        parameter_views(r@) == parameters_of(signature@),
{
    let v = chars_of(signature);
    parse_parameters_chars(&v)
}

pub fn parse_parameters_chars(v: &Vec<char>) -> (r: Vec<GearBlocksApiScrapedParameter>)
    requires
        parameters_defined(v@),
    ensures
        parameter_views(r@) == parameters_of(v@),
{
    let open = vec!['('];
    let close = vec![')'];
    assert(open@ =~= seq!['(']);
    assert(close@ =~= seq![')']);
    let a = match find_in(v, &open) {
        Some(a) => a,
        None => return Vec::new(),
    };
    let b = match rfind_in(v, &close) {
        Some(b) => b,
        None => return Vec::new(),
    };
    let inner = slice_of(v, a + 1, b);
    let params = trim_chars(&inner);
    proof {
        crate::text::lemma_trim_len(inner@);
    }
    if params.len() == 0 {
        return Vec::new();
    }
    let parts = split_parameters_chars(&params);
    let ghost all = parsed_parameters(views(parts@));
    let mut out: Vec<GearBlocksApiScrapedParameter> = Vec::new();
    let mut i: usize = 0;
    while i < parts.len()
        invariant
            i <= parts.len(),
            all == parsed_parameters(views(parts@)),
            parameter_views(out@) == keep_some(all.take(i as int)),
        decreases parts.len() - i,
    {
        let item = param_of_exec(i as i64, &parts[i]);
        assert(all.take(i + 1).drop_last() =~= all.take(i as int));
        assert(all.take(i + 1).last() == param_of((i as i64) as int, parts@[i as int]@));
        match item {
            Some(p) => {
                let ghost before_out = out@;
                out.push(p);
                assert(parameter_views(out@) =~= parameter_views(before_out).push(p@));
            },
            None => {},
        }
        i = i + 1;
    }
    assert(all.take(parts.len() as int) =~= all);
    out
}

// ------------------------------------------------------------ enumerations

/// `s` without leading copies of `c`.
pub open spec fn trim_start_char(s: Seq<char>, c: char) -> Seq<char>
    decreases s.len(),
{
    if s.len() > 0 && s[0] == c {
        trim_start_char(s.drop_first(), c)
    } else {
        s
    }
}

/// `s` without trailing copies of `c`.
pub open spec fn trim_end_char(s: Seq<char>, c: char) -> Seq<char>
    decreases s.len(),
{
    if s.len() > 0 && s.last() == c {
        trim_end_char(s.drop_last(), c)
    } else {
        s
    }
}

pub fn trim_matches_char(v: &Vec<char>, c: char) -> (r: Vec<char>)
    ensures
        r@ == trim_end_char(trim_start_char(v@, c), c),
{
    let mut a: usize = 0;
    assert(v@.skip(0) =~= v@);
    while a < v.len() && v[a] == c
        invariant
            a <= v.len(),
            trim_start_char(v@, c) == trim_start_char(v@.skip(a as int), c),
        decreases v.len() - a,
    {
        assert(v@.skip(a as int).drop_first() =~= v@.skip(a + 1));
        a = a + 1;
    }
    let mut b: usize = v.len();
    assert(v@.skip(a as int) =~= v@.subrange(a as int, b as int));
    while b > a && v[b - 1] == c
        invariant
            a <= b <= v.len(),
            trim_end_char(trim_start_char(v@, c), c) == trim_end_char(
                v@.subrange(a as int, b as int),
                c,
            ),
        decreases b,
    {
        assert(v@.subrange(a as int, b as int).drop_last() =~= v@.subrange(a as int, b - 1));
        b = b - 1;
    }
    slice_of(v, a, b)
}

/// One enumerator of `Name = value`: the name trimmed of spaces and of `|`
/// marks, the value after the first `=`. Nameless pieces give nothing.
pub open spec fn enum_value_of(position: int, raw: Seq<char>) -> Option<EnumValueView> {
    let name = trim_end_char(trim_start_char(trim(before(raw, seq!['='])), '|'), '|');
    let numeric = match after(raw, seq!['=']) {
        Some(v) => trim(v),
        None => seq![],
    };
    if name.len() == 0 {
        None
    } else {
        Some((position, name, numeric, seq![], seq![]))
    }
}

pub open spec fn parsed_enum_values(parts: Seq<Seq<char>>) -> Seq<Option<EnumValueView>> {
    Seq::new(parts.len(), |i: int| enum_value_of((i as i64) as int, parts[i]))
}

/// The enumerators listed between the first `{` of a row's text and the
/// first `}` after it, split at commas.
pub open spec fn enum_values_of(row_text: Seq<char>) -> Seq<EnumValueView> {
    match after(row_text, seq!['{']) {
        Some(rest) => match find(rest, seq!['}']) {
            Some(e) => keep_some(parsed_enum_values(crate::text::split(rest.take(e), seq![',']))),
            None => seq![],
        },
        None => seq![],
    }
}

pub fn enum_value_of_exec(position: i64, raw: &Vec<char>) -> (r: Option<GearBlocksApiScrapedEnumValue>)
    ensures
        match r {
            Some(e) => enum_value_of(position as int, raw@) == Some(e@),
            None => enum_value_of(position as int, raw@) is None,
        },
{
    let eq = vec!['='];
    assert(eq@ =~= seq!['=']);
    let head = trim_chars(&before_chars(raw, &eq));
    let name = trim_matches_char(&head, '|');
    let numeric = match after_chars(raw, &eq) {
        Some(v) => trim_chars(&v),
        None => Vec::new(),
    };
    if name.len() == 0 {
        None
    } else {
        Some(
            GearBlocksApiScrapedEnumValue {
                position,
                value_name: string_of(&name),
                numeric_value: string_of(&numeric),
                lua_name: String::new(),
                description: String::new(),
            },
        )
    }
}

/// Reads the enumerators that a namespace page lists for an enumeration.
pub fn parse_enum_values_from_row(row_text: &str) -> (r: Vec<GearBlocksApiScrapedEnumValue>)
    ensures
        enum_value_views(r@) == enum_values_of(row_text@),
{
    let v = chars_of(row_text);
    parse_enum_values_chars(&v)
}

pub fn parse_enum_values_chars(v: &Vec<char>) -> (r: Vec<GearBlocksApiScrapedEnumValue>)
    ensures
        enum_value_views(r@) == enum_values_of(v@),
{
    let open = vec!['{'];
    let close = vec!['}'];
    let comma = vec![','];
    assert(open@ =~= seq!['{']);
    assert(close@ =~= seq!['}']);
    assert(comma@ =~= seq![',']);
    let rest = match after_chars(v, &open) {
        Some(rest) => rest,
        None => return Vec::new(),
    };
    let e = match find_in(&rest, &close) {
        Some(e) => e,
        None => return Vec::new(),
    };
    let inner = slice_of(&rest, 0, e);
    assert(inner@ =~= rest@.take(e as int));
    let parts = crate::text::split_chars(&inner, &comma);
    let ghost all = parsed_enum_values(views(parts@));
    let mut out: Vec<GearBlocksApiScrapedEnumValue> = Vec::new();
    let mut i: usize = 0;
    while i < parts.len()
        invariant
            i <= parts.len(),
            all == parsed_enum_values(views(parts@)),
            enum_value_views(out@) == keep_some(all.take(i as int)),
        decreases parts.len() - i,
    {
        let item = enum_value_of_exec(i as i64, &parts[i]);
        assert(all.take(i + 1).drop_last() =~= all.take(i as int));
        assert(all.take(i + 1).last() == enum_value_of((i as i64) as int, parts@[i as int]@));
        match item {
            Some(x) => {
                let ghost before_out = out@;
                out.push(x);
                assert(enum_value_views(out@) =~= enum_value_views(before_out).push(x@));
            },
            None => {},
        }
        i = i + 1;
    }
    assert(all.take(parts.len() as int) =~= all);
    out
}


// ------------------------------------------------------------ type pages

/// A member as plain values.
pub struct MemberModel {
    pub member_key: Seq<char>,
    pub member_name: Seq<char>,
    pub signature: Seq<char>,
    pub member_kind: Seq<char>,
    pub return_type: Seq<char>,
    pub is_readable: bool,
    pub is_writable: bool,
    pub is_invokable: bool,
    pub is_mutating: bool,
    pub docs_url: Seq<char>,
    pub notes: Seq<char>,
    pub parameters: Seq<ParameterView>,
}

impl View for GearBlocksApiScrapedMember {
    type V = MemberModel;

    open spec fn view(&self) -> MemberModel {
        MemberModel {
            member_key: self.member_key@,
            member_name: self.member_name@,
            signature: self.signature@,
            member_kind: self.member_kind@,
            return_type: self.return_type@,
            is_readable: self.is_readable,
            is_writable: self.is_writable,
            is_invokable: self.is_invokable,
            is_mutating: self.is_mutating,
            docs_url: self.docs_url@,
            notes: self.notes@,
            parameters: parameter_views(self.parameters@),
        }
    }
}

pub open spec fn member_views(v: Seq<GearBlocksApiScrapedMember>) -> Seq<MemberModel> {
    v.map_values(|m: GearBlocksApiScrapedMember| m@)
}

/// A documented type as plain values.
pub struct TypeModel {
    pub namespace: Seq<char>,
    pub api_type_name: Seq<char>,
    pub type_kind: Seq<char>,
    pub docs_url: Seq<char>,
    pub notes: Seq<char>,
    pub members: Seq<MemberModel>,
    pub enum_values: Seq<EnumValueView>,
}

impl View for GearBlocksApiScrapedType {
    type V = TypeModel;

    open spec fn view(&self) -> TypeModel {
        TypeModel {
            namespace: self.namespace@,
            api_type_name: self.api_type_name@,
            type_kind: self.type_kind@,
            docs_url: self.docs_url@,
            notes: self.notes@,
            members: member_views(self.members@),
            enum_values: enum_value_views(self.enum_values@),
        }
    }
}

pub open spec fn type_views(v: Seq<GearBlocksApiScrapedType>) -> Seq<TypeModel> {
    v.map_values(|t: GearBlocksApiScrapedType| t@)
}

/// The rows of a table-based page: the pieces between `<tr` markers.
pub open spec fn rows_of(html: Seq<char>) -> Seq<Seq<char>> {
    crate::text::split(html, "<tr"@)
}

pub fn rows_of_chars(html: &Vec<char>) -> (r: Vec<Vec<char>>)
    ensures
        views(r@) == rows_of(html@),
{
    proof {
        reveal_strlit("<tr");
    }
    crate::text::split_str(html, "<tr")
}

/// A cell's content, or nothing when the row has no such cell.
pub open spec fn cell_or_empty(row: Seq<char>, class_name: Seq<char>) -> Seq<char> {
    match cell_by_class(row, class_name) {
        Some(c) => c,
        None => seq![],
    }
}

pub fn cell_or_empty_chars(row: &Vec<char>, class_name: &str) -> (r: Vec<char>)
    ensures
        r@ == cell_or_empty(row@, class_name@),
{
    let c = chars_of(class_name);
    match extract_table_cell_by_class_chars(row, &c) {
        Some(x) => x,
        None => Vec::new(),
    }
}

/// The member that a row of a member table describes, under the section
/// heading `section` (already lower-cased).
pub open spec fn member_of_row(
    row: Seq<char>,
    next_row: Option<Seq<char>>,
    section: Seq<char>,
    type_docs_url: Seq<char>,
) -> Option<MemberModel> {
    let kind = section_member_kind(section);
    let left = cell_or_empty(row, "memItemLeft"@);
    let right = cell_or_empty(row, "memItemRight"@);
    let right_text = html_text(right);
    if kind.len() == 0 {
        None
    } else {
        match last_anchor(right) {
            Some(anchor) => {
                let name = html_text(anchor);
                if name.len() == 0 {
                    None
                } else {
                    let signature = signature_of(kind, name, right_text);
                    let is_method = kind == "method"@;
                    Some(
                        MemberModel {
                            member_key: key_of(name, signature),
                            member_name: name,
                            signature,
                            member_kind: kind,
                            return_type: cleaned_member_type(html_text(left)),
                            is_readable: kind == "property"@ && contains(right_text, "[get]"@),
                            is_writable: kind == "property"@ && contains(right_text, "[set]"@),
                            is_invokable: is_method,
                            is_mutating: is_method && mutating_prefix(unicode_lowercase(name)),
                            docs_url: match first_link(right) {
                                Some(h) => absolute_fragment_url(type_docs_url, h),
                                None => type_docs_url,
                            },
                            notes: match next_row {
                                Some(n) => if contains(n, "memdesc"@) {
                                    html_text(n)
                                } else {
                                    seq![]
                                },
                                None => seq![],
                            },
                            parameters: if is_method {
                                parameters_of(signature)
                            } else {
                                seq![]
                            },
                        },
                    )
                }
            },
            None => None,
        }
    }
}

/// Whether a row whose last anchor names a method gives a signature whose
/// parameter list is defined (see `parameters_defined`).
pub open spec fn row_signature_defined(row: Seq<char>) -> bool {
    let right = cell_or_empty(row, "memItemRight"@);
    match last_anchor(right) {
        Some(anchor) => parameters_defined(
            signature_of("method"@, html_text(anchor), html_text(right)),
        ),
        None => true,
    }
}

pub open spec fn rows_defined(rows: Seq<Seq<char>>) -> bool {
    forall|i: int| 0 <= i < rows.len() ==> row_signature_defined(#[trigger] rows[i])
}

/// Reads the member table rows `0..n`: the members found so far and the
/// current section heading.
pub open spec fn members_scan(rows: Seq<Seq<char>>, n: int, type_docs_url: Seq<char>) -> (
    Seq<MemberModel>,
    Seq<char>,
)
    decreases n,
{
    if n <= 0 {
        (seq![], seq![])
    } else {
        let (members, section) = members_scan(rows, n - 1, type_docs_url);
        let row = rows[n - 1];
        if contains(row, "groupheader"@) {
            (members, unicode_lowercase(html_text(row)))
        } else if !contains(row, "memitem"@) {
            (members, section)
        } else {
            let next = if n < rows.len() {
                Some(rows[n])
            } else {
                None
            };
            match member_of_row(row, next, section, type_docs_url) {
                Some(m) => (members.push(m), section),
                None => (members, section),
            }
        }
    }
}

/// The members a type page lists.
pub open spec fn type_members(html: Seq<char>, type_docs_url: Seq<char>) -> Seq<MemberModel> {
    let rows = rows_of(html);
    members_scan(rows, rows.len() as int, type_docs_url).0
}

/// Builds the member that one table row describes; `section` is the
/// lower-cased heading of the section that the row stands in.
pub fn member_from_row(
    row: &Vec<char>,
    next_row: Option<&Vec<char>>,
    section: &Vec<char>,
    type_docs_url: &Vec<char>,
) -> (r: Option<GearBlocksApiScrapedMember>)
    requires
        row_signature_defined(row@),
    ensures
        match r {
            Some(m) => member_of_row(
                row@,
                match next_row {
                    Some(n) => Some(n@),
                    None => None,
                },
                section@,
                type_docs_url@,
            ) == Some(m@),
            None => member_of_row(
                row@,
                match next_row {
                    Some(n) => Some(n@),
                    None => None,
                },
                section@,
                type_docs_url@,
            ) is None,
        },
{
    let kind = chars_of(member_kind_from_section(string_of(section).as_str()).as_str());
    if kind.len() == 0 {
        return None;
    }
    let left = cell_or_empty_chars(row, "memItemLeft");
    let right = cell_or_empty_chars(row, "memItemRight");
    let return_type = clean_member_type_chars(&strip_html_chars(&left));
    let right_text = strip_html_chars(&right);
    let anchor = match last_anchor_text_chars(&right) {
        Some(a) => a,
        None => return None,
    };
    let name = strip_html_chars(&anchor);
    if name.len() == 0 {
        return None;
    }
    let docs_url = match first_href_chars(&right) {
        Some(h) => absolutize_fragment_url_chars(type_docs_url, &h),
        None => slice_of(type_docs_url, 0, type_docs_url.len()),
    };
    assert(type_docs_url@.subrange(0, type_docs_url@.len() as int) =~= type_docs_url@);
    let notes = match next_row {
        Some(n) => if contains_str(n, "memdesc") {
            strip_html_chars(n)
        } else {
            Vec::new()
        },
        None => Vec::new(),
    };
    let signature = member_signature_chars(&kind, &name, &right_text);
    let is_method = chars_eq_str(&kind, "method");
    let is_property = chars_eq_str(&kind, "property");
    let parameters = if is_method {
        proof {
            reveal_strlit("method");
            assert(kind@ == "method"@);
        }
        parse_parameters_chars(&signature)
    } else {
        Vec::new()
    };
    let is_mutating = if is_method {
        let lower = to_lowercase_chars(&name);
        has_mutating_prefix_chars(&lower)
    } else {
        false
    };
    let key = member_key_chars(&name, &signature);
    assert(parameter_views(parameters@) =~= (if is_method {
        parameters_of(signature@)
    } else {
        seq![]
    }));
    Some(
        GearBlocksApiScrapedMember {
            member_key: string_of(&key),
            member_name: string_of(&name),
            signature: string_of(&signature),
            member_kind: string_of(&kind),
            return_type: string_of(&return_type),
            is_readable: is_property && contains_str(&right_text, "[get]"),
            is_writable: is_property && contains_str(&right_text, "[set]"),
            is_invokable: is_method,
            is_mutating,
            docs_url: string_of(&docs_url),
            notes: string_of(&notes),
            parameters,
        },
    )
}

/// Reads the members of a type page, section by section.
pub fn parse_type_members(html: &str, type_docs_url: &str, _type_name: &str) -> (r: Vec<
    GearBlocksApiScrapedMember,
>)
    requires
        rows_defined(rows_of(html@)),
    ensures
        member_views(r@) == type_members(html@, type_docs_url@),
{
    let v = chars_of(html);
    let url = chars_of(type_docs_url);
    parse_type_members_chars(&v, &url)
}

pub fn parse_type_members_chars(html: &Vec<char>, type_docs_url: &Vec<char>) -> (r: Vec<
    GearBlocksApiScrapedMember,
>)
    requires
        rows_defined(rows_of(html@)),
    ensures
        member_views(r@) == type_members(html@, type_docs_url@),
{
    let rows = rows_of_chars(html);
    let ghost rv = views(rows@);
    let mut members: Vec<GearBlocksApiScrapedMember> = Vec::new();
    let mut section: Vec<char> = Vec::new();
    let mut i: usize = 0;
    while i < rows.len()
        invariant
            i <= rows.len(),
            rv == views(rows@),
            rows_defined(rv),
            (member_views(members@), section@) == members_scan(rv, i as int, type_docs_url@),
        decreases rows.len() - i,
    {
        let row = &rows[i];
        assert(rv[i as int] == row@);
        if contains_str(row, "groupheader") {
            section = to_lowercase_chars(&strip_html_chars(row));
        } else if contains_str(row, "memitem") {
            let next = if i + 1 < rows.len() {
                Some(&rows[i + 1])
            } else {
                None
            };
            proof {
                if i + 1 < rows.len() {
                    assert(rv[i + 1] == rows@[i + 1]@);
                }
            }
            match member_from_row(row, next, &section, type_docs_url) {
                Some(m) => {
                    let ghost before_members = members@;
                    members.push(m);
                    assert(member_views(members@) =~= member_views(before_members).push(m@));
                },
                None => {},
            }
        }
        i = i + 1;
    }
    members
}

/// A type discovered in an index page: namespace, type name, kind, page URL
/// and the index's description.
#[derive(Clone, Debug)]
pub struct TypeCandidate {
    pub namespace: String,
    pub api_type_name: String,
    pub type_kind: String,
    pub docs_url: String,
    pub notes: String,
}

pub type CandidateView = (Seq<char>, Seq<char>, Seq<char>, Seq<char>, Seq<char>);

impl View for TypeCandidate {
    type V = CandidateView;

    open spec fn view(&self) -> CandidateView {
        (self.namespace@, self.api_type_name@, self.type_kind@, self.docs_url@, self.notes@)
    }
}

pub open spec fn candidate_views(v: Seq<TypeCandidate>) -> Seq<CandidateView> {
    v.map_values(|c: TypeCandidate| c@)
}

impl TypeCandidate {
    /// The type this candidate describes, with the given members and no
    /// enumeration values.
    pub fn into_scraped_type(self, members: Vec<GearBlocksApiScrapedMember>) -> (r:
        GearBlocksApiScrapedType)
        ensures
            r@ == (TypeModel {
                namespace: self.namespace@,
                api_type_name: self.api_type_name@,
                type_kind: self.type_kind@,
                docs_url: self.docs_url@,
                notes: self.notes@,
                members: member_views(members@),
                enum_values: seq![],
            }),
    {
        let r = GearBlocksApiScrapedType {
            namespace: self.namespace,
            api_type_name: self.api_type_name,
            type_kind: self.type_kind,
            docs_url: self.docs_url,
            notes: self.notes,
            members,
            enum_values: Vec::new(),
        };
        assert(enum_value_views(r.enum_values@) =~= seq![]);
        r
    }
}

/// A type page read against the candidate that pointed to it: the page's
/// own title and summary win where present; members come from the page.
pub open spec fn type_page(candidate: CandidateView, html: Seq<char>) -> TypeModel {
    let (namespace, api_type_name, type_kind) = match type_page_title(html) {
        Some(t) => t,
        None => (candidate.0, candidate.1, candidate.2),
    };
    TypeModel {
        namespace,
        api_type_name,
        type_kind,
        docs_url: candidate.3,
        notes: match type_summary(html) {
            Some(s) => s,
            None => candidate.4,
        },
        members: type_members(html, candidate.3),
        enum_values: seq![],
    }
}

pub fn parse_type_page(candidate: TypeCandidate, html: &str) -> (r: GearBlocksApiScrapedType)
    requires
        rows_defined(rows_of(html@)),
    ensures
        r@ == type_page(candidate@, html@),
{
    let (namespace, api_type_name, type_kind) = match parse_type_page_title(html) {
        Some(t) => t,
        None => (candidate.namespace.clone(), candidate.api_type_name.clone(), candidate.type_kind.clone()),
    };
    let notes = match parse_type_summary(html) {
        Some(s) => s,
        None => candidate.notes,
    };
    let members = parse_type_members(html, candidate.docs_url.as_str(), api_type_name.as_str());
    let r = GearBlocksApiScrapedType {
        namespace,
        api_type_name,
        type_kind,
        docs_url: candidate.docs_url,
        notes,
        members,
        enum_values: Vec::new(),
    };
    assert(enum_value_views(r.enum_values@) =~= seq![]);
    r
}


// ------------------------------------------------------------ index pages

/// The readable description of a row, or nothing.
pub open spec fn desc_or_empty(row: Seq<char>) -> Seq<char> {
    match desc_cell(row) {
        Some(d) => d,
        None => seq![],
    }
}

pub fn desc_or_empty_chars(row: &Vec<char>) -> (r: Vec<char>)
    ensures
        r@ == desc_or_empty(row@),
{
    match extract_desc_cell_chars(row) {
        Some(d) => d,
        None => Vec::new(),
    }
}

/// The type that a row of the class hierarchy links to, if the link names
/// a class, interface or struct page and the anchor a dotted name.
pub open spec fn hierarchy_row(row: Seq<char>) -> Option<CandidateView> {
    match first_link(row) {
        Some(href) => {
            let kind = href_kind(href);
            if kind.len() == 0 {
                None
            } else {
                match first_anchor(row) {
                    Some(anchor) => {
                        let full = normalized_type_name(html_text(anchor));
                        if !contains(full, seq!['.']) {
                            None
                        } else {
                            let (namespace, name) = split_type_name(full);
                            Some(
                                (namespace, name, kind, absolute_docs_url(href), desc_or_empty(row)),
                            )
                        }
                    },
                    None => None,
                }
            }
        },
        None => None,
    }
}

/// Whether a candidate with this page URL is already listed.
pub open spec fn url_listed(found: Seq<CandidateView>, url: Seq<char>) -> bool {
    exists|i: int| 0 <= i < found.len() && (#[trigger] found[i]).3 == url
}

/// The candidates of hierarchy rows `0..n`, each page URL once, first
/// occurrence kept.
pub open spec fn hierarchy_scan(rows: Seq<Seq<char>>, n: int) -> Seq<CandidateView>
    decreases n,
{
    if n <= 0 {
        seq![]
    } else {
        let found = hierarchy_scan(rows, n - 1);
        match hierarchy_row(rows[n - 1]) {
            Some(c) => if url_listed(found, c.3) {
                found
            } else {
                found.push(c)
            },
            None => found,
        }
    }
}

pub open spec fn hierarchy_candidates(html: Seq<char>) -> Seq<CandidateView> {
    hierarchy_scan(rows_of(html), rows_of(html).len() as int)
}

pub fn hierarchy_row_exec(row: &Vec<char>) -> (r: Option<TypeCandidate>)
    ensures
        match r {
            Some(c) => hierarchy_row(row@) == Some(c@),
            None => hierarchy_row(row@) is None,
        },
{
    let href = match first_href_chars(row) {
        Some(h) => h,
        None => return None,
    };
    let kind = docs_kind_chars(&href);
    if kind.len() == 0 {
        return None;
    }
    let anchor = match first_anchor_text_chars(row) {
        Some(a) => a,
        None => return None,
    };
    let full = normalize_type_name_chars(&strip_html_chars(&anchor));
    let dot = vec!['.'];
    assert(dot@ =~= seq!['.']);
    if !crate::text::contains_exec(&full, &dot) {
        return None;
    }
    let docs_url = absolutize_docs_url_chars(&href);
    let (namespace, name) = split_full_type_name_chars(&full);
    let notes = desc_or_empty_chars(row);
    Some(
        TypeCandidate {
            namespace: string_of(&namespace),
            api_type_name: string_of(&name),
            type_kind: string_of(&kind),
            docs_url: string_of(&docs_url),
            notes: string_of(&notes),
        },
    )
}

pub fn url_listed_exec(found: &Vec<TypeCandidate>, url: &Vec<char>) -> (r: bool)
    ensures
        r == url_listed(candidate_views(found@), url@),
{
    let mut i: usize = 0;
    while i < found.len()
        invariant
            i <= found.len(),
            forall|j: int| 0 <= j < i ==> (#[trigger] found@[j])@.3 != url@,
        decreases found.len() - i,
    {
        let u = chars_of(found[i].docs_url.as_str());
        if chars_eq(&u, url) {
            assert(candidate_views(found@)[i as int].3 == url@);
            return true;
        }
        i = i + 1;
    }
    proof {
        assert forall|j: int| 0 <= j < found@.len() implies (#[trigger] candidate_views(
            found@,
        )[j]).3 != url@ by {
            assert(candidate_views(found@)[j] == found@[j]@);
        }
    }
    false
}

/// Reads the class hierarchy index: one candidate per documented type page.
pub fn parse_hierarchy_type_candidates(html: &str) -> (r: Vec<TypeCandidate>)
    ensures
        candidate_views(r@) == hierarchy_candidates(html@),
{
    let v = chars_of(html);
    let rows = rows_of_chars(&v);
    let ghost rv = views(rows@);
    let mut found: Vec<TypeCandidate> = Vec::new();
    let mut i: usize = 0;
    while i < rows.len()
        invariant
            i <= rows.len(),
            rv == views(rows@),
            candidate_views(found@) == hierarchy_scan(rv, i as int),
        decreases rows.len() - i,
    {
        assert(rv[i as int] == rows@[i as int]@);
        match hierarchy_row_exec(&rows[i]) {
            Some(c) => {
                let url = chars_of(c.docs_url.as_str());
                if !url_listed_exec(&found, &url) {
                    let ghost before_found = found@;
                    found.push(c);
                    assert(candidate_views(found@) =~= candidate_views(before_found).push(c@));
                }
            },
            None => {},
        }
        i = i + 1;
    }
    found
}

/// The type that a row of a namespace page links to, if the link names a
/// class, interface or struct page and the anchor a plain (undotted) name.
pub open spec fn namespace_row(row: Seq<char>, namespace: Seq<char>) -> Option<CandidateView> {
    match first_link(row) {
        Some(href) => {
            let kind = href_kind(href);
            if kind.len() == 0 {
                None
            } else {
                match first_anchor(row) {
                    Some(anchor) => {
                        let name = normalized_type_name(html_text(anchor));
                        if name.len() == 0 || contains(name, seq!['.']) {
                            None
                        } else {
                            Some(
                                (namespace, name, kind, absolute_docs_url(href), desc_or_empty(row)),
                            )
                        }
                    },
                    None => None,
                }
            }
        },
        None => None,
    }
}

/// The types a namespace page lists; none if the page has no namespace
/// title.
pub open spec fn namespace_candidates(html: Seq<char>) -> Seq<CandidateView> {
    match namespace_title(html) {
        Some(namespace) => {
            let rows = rows_of(html);
            keep_some(Seq::new(rows.len(), |i: int| namespace_row(rows[i], namespace)))
        },
        None => seq![],
    }
}

pub fn namespace_row_exec(row: &Vec<char>, namespace: &Vec<char>) -> (r: Option<TypeCandidate>)
    ensures
        match r {
            Some(c) => namespace_row(row@, namespace@) == Some(c@),
            None => namespace_row(row@, namespace@) is None,
        },
{
    let href = match first_href_chars(row) {
        Some(h) => h,
        None => return None,
    };
    let kind = docs_kind_chars(&href);
    if kind.len() == 0 {
        return None;
    }
    let anchor = match first_anchor_text_chars(row) {
        Some(a) => a,
        None => return None,
    };
    let name = normalize_type_name_chars(&strip_html_chars(&anchor));
    let dot = vec!['.'];
    assert(dot@ =~= seq!['.']);
    if name.len() == 0 || crate::text::contains_exec(&name, &dot) {
        return None;
    }
    let docs_url = absolutize_docs_url_chars(&href);
    let notes = desc_or_empty_chars(row);
    Some(
        TypeCandidate {
            namespace: string_of(namespace),
            api_type_name: string_of(&name),
            type_kind: string_of(&kind),
            docs_url: string_of(&docs_url),
            notes: string_of(&notes),
        },
    )
}

/// Reads the types that a namespace page lists.
pub fn parse_namespace_type_candidates(html: &str, _namespace_url: &str) -> (r: Vec<TypeCandidate>)
    ensures
        candidate_views(r@) == namespace_candidates(html@),
{
    let v = chars_of(html);
    let namespace = match parse_namespace_title_chars(&v) {
        Some(n) => n,
        None => return Vec::new(),
    };
    let rows = rows_of_chars(&v);
    let ghost rv = views(rows@);
    let ghost all = Seq::new(rv.len(), |i: int| namespace_row(rv[i], namespace@));
    let mut found: Vec<TypeCandidate> = Vec::new();
    let mut i: usize = 0;
    while i < rows.len()
        invariant
            i <= rows.len(),
            rv == views(rows@),
            all == Seq::new(rv.len(), |i: int| namespace_row(rv[i], namespace@)),
            candidate_views(found@) == keep_some(all.take(i as int)),
        decreases rows.len() - i,
    {
        assert(all.take(i + 1).drop_last() =~= all.take(i as int));
        assert(all.take(i + 1).last() == namespace_row(rows@[i as int]@, namespace@));
        match namespace_row_exec(&rows[i], &namespace) {
            Some(c) => {
                let ghost before_found = found@;
                found.push(c);
                assert(candidate_views(found@) =~= candidate_views(before_found).push(c@));
            },
            None => {},
        }
        i = i + 1;
    }
    assert(all.take(rows.len() as int) =~= all);
    found
}

/// The enumeration that a row of a namespace page declares.
pub open spec fn enum_row(row: Seq<char>, namespace: Seq<char>, namespace_url: Seq<char>) -> Option<
    TypeModel,
> {
    let right = cell_or_empty(row, "memItemRight"@);
    match first_anchor(right) {
        Some(anchor) => {
            let name = normalized_type_name(html_text(anchor));
            if name.len() == 0 {
                None
            } else {
                Some(
                    TypeModel {
                        namespace,
                        api_type_name: name,
                        type_kind: "enum"@,
                        docs_url: match first_link(right) {
                            Some(h) => absolute_docs_url(h),
                            None => namespace_url,
                        },
                        notes: desc_or_empty(row),
                        members: seq![],
                        enum_values: enum_values_of(html_text(right)),
                    },
                )
            }
        },
        None => None,
    }
}

/// Reads namespace rows `0..n`: the enumerations found so far and the
/// current (lower-cased) section heading.
pub open spec fn enums_scan(
    rows: Seq<Seq<char>>,
    n: int,
    namespace: Seq<char>,
    namespace_url: Seq<char>,
) -> (Seq<TypeModel>, Seq<char>)
    decreases n,
{
    if n <= 0 {
        (seq![], seq![])
    } else {
        let (found, section) = enums_scan(rows, n - 1, namespace, namespace_url);
        let row = rows[n - 1];
        if contains(row, "groupheader"@) {
            (found, unicode_lowercase(html_text(row)))
        } else if !contains(section, "enumeration"@) && !contains(section, "enum"@) {
            (found, section)
        } else if !contains(row, "memitem"@) {
            (found, section)
        } else {
            match enum_row(row, namespace, namespace_url) {
                Some(t) => (found.push(t), section),
                None => (found, section),
            }
        }
    }
}

/// The enumerations a namespace page declares; none without a title.
pub open spec fn namespace_enums(html: Seq<char>, namespace_url: Seq<char>) -> Seq<TypeModel> {
    match namespace_title(html) {
        Some(namespace) => {
            let rows = rows_of(html);
            enums_scan(rows, rows.len() as int, namespace, namespace_url).0
        },
        None => seq![],
    }
}

pub fn enum_from_row(row: &Vec<char>, namespace: &Vec<char>, namespace_url: &Vec<char>) -> (r:
    Option<GearBlocksApiScrapedType>)
    ensures
        match r {
            Some(t) => enum_row(row@, namespace@, namespace_url@) == Some(t@),
            None => enum_row(row@, namespace@, namespace_url@) is None,
        },
{
    let right = cell_or_empty_chars(row, "memItemRight");
    let right_text = strip_html_chars(&right);
    let anchor = match first_anchor_text_chars(&right) {
        Some(a) => a,
        None => return None,
    };
    let name = normalize_type_name_chars(&strip_html_chars(&anchor));
    if name.len() == 0 {
        return None;
    }
    let docs_url = match first_href_chars(&right) {
        Some(h) => absolutize_docs_url_chars(&h),
        None => slice_of(namespace_url, 0, namespace_url.len()),
    };
    assert(namespace_url@.subrange(0, namespace_url@.len() as int) =~= namespace_url@);
    let enum_values = parse_enum_values_chars(&right_text);
    let notes = desc_or_empty_chars(row);
    let r = GearBlocksApiScrapedType {
        namespace: string_of(namespace),
        api_type_name: string_of(&name),
        type_kind: String::from_str("enum"),
        docs_url: string_of(&docs_url),
        notes: string_of(&notes),
        members: Vec::new(),
        enum_values,
    };
    assert(member_views(r.members@) =~= seq![]);
    Some(r)
}

/// Reads the enumerations that a namespace page declares.
pub fn parse_namespace_enums(html: &str, namespace_url: &str) -> (r: Vec<GearBlocksApiScrapedType>)
    ensures
        type_views(r@) == namespace_enums(html@, namespace_url@),
{
    let v = chars_of(html);
    let url = chars_of(namespace_url);
    let namespace = match parse_namespace_title_chars(&v) {
        Some(n) => n,
        None => return Vec::new(),
    };
    let rows = rows_of_chars(&v);
    let ghost rv = views(rows@);
    let mut found: Vec<GearBlocksApiScrapedType> = Vec::new();
    let mut section: Vec<char> = Vec::new();
    let mut i: usize = 0;
    while i < rows.len()
        invariant
            i <= rows.len(),
            rv == views(rows@),
            (type_views(found@), section@) == enums_scan(rv, i as int, namespace@, url@),
        decreases rows.len() - i,
    {
        let row = &rows[i];
        assert(rv[i as int] == row@);
        if contains_str(row, "groupheader") {
            section = to_lowercase_chars(&strip_html_chars(row));
        } else if (contains_str(&section, "enumeration") || contains_str(&section, "enum"))
            && contains_str(row, "memitem") {
            match enum_from_row(row, &namespace, &url) {
                Some(t) => {
                    let ghost before_found = found@;
                    found.push(t);
                    assert(type_views(found@) =~= type_views(before_found).push(t@));
                },
                None => {},
            }
        }
        i = i + 1;
    }
    found
}

/// The namespace page that a link fragment points to, made absolute.
pub open spec fn namespace_link(fragment: Seq<char>) -> Option<Seq<char>> {
    let href = before(fragment, seq!['"']);
    if starts_with(href, "namespace_"@) && ends_with(href, ".html"@) {
        Some(absolute_docs_url(href))
    } else {
        None
    }
}

/// Whether some link of the page (a piece after an `href="`) points to the
/// namespace page `url`.
pub open spec fn links_namespace(html: Seq<char>, url: Seq<char>) -> bool {
    let pieces = crate::text::split(html, "href=\""@);
    exists|i: int| 1 <= i < pieces.len() && namespace_link(#[trigger] pieces[i]) == Some(url)
}

pub fn namespace_link_exec(fragment: &Vec<char>) -> (r: Option<Vec<char>>)
    ensures
        match r {
            Some(u) => namespace_link(fragment@) == Some(u@),
            None => namespace_link(fragment@) is None,
        },
{
    let quote = vec!['"'];
    assert(quote@ =~= seq!['"']);
    let href = before_chars(fragment, &quote);
    if starts_with_str(&href, "namespace_") && ends_with_str(&href, ".html") {
        Some(absolutize_docs_url_chars(&href))
    } else {
        None
    }
}

/// Reads the namespace index: every namespace page it links to, once each,
/// in ascending order.
pub fn parse_namespace_urls(html: &str) -> (r: Vec<String>)
    ensures
        crate::markup::strictly_sorted(r@.map_values(|u: String| u@)),
        forall|u: Seq<char>| r@.map_values(|x: String| x@).contains(u) <==> links_namespace(
            html@,
            u,
        ),
{
    let v = chars_of(html);
    proof {
        reveal_strlit("href=\"");
    }
    let pieces = crate::text::split_str(&v, "href=\"");
    let ghost pv = views(pieces@);
    let mut urls: Vec<Vec<char>> = Vec::new();
    let mut i: usize = 1;
    while i < pieces.len()
        invariant
            1 <= i,
            pv == views(pieces@),
            pv == crate::text::split(v@, "href=\""@),
            crate::markup::strictly_sorted(views(urls@)),
            forall|u: Seq<char>| views(urls@).to_set().contains(u) <==> exists|j: int|
                1 <= j < i && j < pv.len() && namespace_link(#[trigger] pv[j]) == Some(u),
        decreases pieces.len() - i,
    {
        assert(pv[i as int] == pieces@[i as int]@);
        match namespace_link_exec(&pieces[i]) {
            Some(u) => {
                let ghost uv = u@;
                let ghost before_set = views(urls@).to_set();
                crate::markup::insert_sorted(&mut urls, u);
                proof {
                    assert forall|w: Seq<char>| views(urls@).to_set().contains(w) <==> exists|j: int|
                        1 <= j < i + 1 && j < pv.len() && namespace_link(#[trigger] pv[j]) == Some(
                            w,
                        ) by {
                        if w == uv {
                            assert(namespace_link(pv[i as int]) == Some(w));
                        }
                        if exists|j: int|
                            1 <= j < i + 1 && j < pv.len() && namespace_link(#[trigger] pv[j])
                                == Some(w) {
                            let j = choose|j: int|
                                1 <= j < i + 1 && j < pv.len() && namespace_link(
                                    #[trigger] pv[j],
                                ) == Some(w);
                            if j < i {
                                assert(before_set.contains(w));
                            }
                        }
                    }
                }
            },
            None => {
                proof {
                    assert forall|w: Seq<char>| views(urls@).to_set().contains(w) <==> exists|j: int|
                        1 <= j < i + 1 && j < pv.len() && namespace_link(#[trigger] pv[j]) == Some(
                            w,
                        ) by {
                        if exists|j: int|
                            1 <= j < i + 1 && j < pv.len() && namespace_link(#[trigger] pv[j])
                                == Some(w) {
                            let j = choose|j: int|
                                1 <= j < i + 1 && j < pv.len() && namespace_link(
                                    #[trigger] pv[j],
                                ) == Some(w);
                            assert(j < i);
                        }
                    }
                }
            },
        }
        i = i + 1;
    }
    let mut out: Vec<String> = Vec::new();
    let mut k: usize = 0;
    while k < urls.len()
        invariant
            k <= urls.len(),
            out@.map_values(|x: String| x@) == views(urls@).take(k as int),
        decreases urls.len() - k,
    {
        let s = string_of(&urls[k]);
        let ghost prev = out@;
        out.push(s);
        assert(out@.map_values(|x: String| x@) =~= prev.map_values(|x: String| x@).push(
            urls@[k as int]@,
        ));
        k = k + 1;
        assert(views(urls@).take(k as int) =~= views(urls@).take(k - 1).push(urls@[k - 1]@));
    }
    assert(views(urls@).take(urls.len() as int) =~= views(urls@));
    proof {
        let ov = out@.map_values(|x: String| x@);
        assert(ov == views(urls@));
        assert(html@ == v@);
        assert forall|u: Seq<char>| ov.contains(u) <==> links_namespace(html@, u) by {
            assert(views(urls@).to_set().contains(u) <==> views(urls@).contains(u));
            if links_namespace(html@, u) {
                let j = choose|j: int|
                    1 <= j < pv.len() && namespace_link(#[trigger] pv[j]) == Some(u);
                assert(1 <= j < i && j < pv.len() && namespace_link(pv[j]) == Some(u));
            }
        }
    }
    out
}


// ------------------------------------------------------------ readable pages

pub fn parameters_defined_exec(v: &Vec<char>) -> (r: bool)
    ensures
        r == parameters_defined(v@),
{
    let open = vec!['('];
    let close = vec![')'];
    assert(open@ =~= seq!['(']);
    assert(close@ =~= seq![')']);
    match (find_in(v, &open), rfind_in(v, &close)) {
        (Some(a), Some(b)) => a < b,
        _ => true,
    }
}

pub fn row_signature_defined_exec(row: &Vec<char>) -> (r: bool)
    ensures
        r == row_signature_defined(row@),
{
    let right = cell_or_empty_chars(row, "memItemRight");
    match last_anchor_text_chars(&right) {
        Some(anchor) => {
            let kind = chars_of("method");
            let name = strip_html_chars(&anchor);
            let right_text = strip_html_chars(&right);
            let signature = member_signature_chars(&kind, &name, &right_text);
            parameters_defined_exec(&signature)
        },
        None => true,
    }
}

/// Whether every method row of a type page has a parameter list that can be
/// read: a page where some signature closes its list before opening it
/// cannot.
pub fn type_page_readable(html: &str) -> (r: bool)
    ensures
        r == rows_defined(rows_of(html@)),
{
    let v = chars_of(html);
    let rows = rows_of_chars(&v);
    let mut i: usize = 0;
    while i < rows.len()
        invariant
            i <= rows.len(),
            views(rows@) == rows_of(html@),
            forall|j: int| 0 <= j < i ==> row_signature_defined(#[trigger] rows_of(html@)[j]),
        decreases rows.len() - i,
    {
        assert(rows_of(html@)[i as int] == rows[i as int]@);
        if !row_signature_defined_exec(&rows[i]) {
            return false;
        }
        i = i + 1;
    }
    true
}

/// A type page read when it is readable (see `type_page_readable`);
/// nothing otherwise.
pub fn read_type_page(candidate: TypeCandidate, html: &str) -> (r: Option<GearBlocksApiScrapedType>)
    ensures
        rows_defined(rows_of(html@)) <==> r is Some,
        r matches Some(t) ==> t@ == type_page(candidate@, html@),
{
    if type_page_readable(html) {
        Some(parse_type_page(candidate, html))
    } else {
        None
    }
}


// ------------------------------------------------------------ assembling a scrape

/// The known candidates with the found ones appended, each page URL once:
/// a found candidate whose page is already listed is passed over.
pub open spec fn merged_candidates(known: Seq<CandidateView>, found: Seq<CandidateView>) -> Seq<
    CandidateView,
>
    decreases found.len(),
{
    if found.len() == 0 {
        known
    } else {
        let m = merged_candidates(known, found.drop_last());
        if url_listed(m, found.last().3) {
            m
        } else {
            m.push(found.last())
        }
    }
}

pub fn add_candidates(known: &mut Vec<TypeCandidate>, found: Vec<TypeCandidate>)
    ensures
        candidate_views(final(known)@) == merged_candidates(
            candidate_views(old(known)@),
            candidate_views(found@),
        ),
{
    let ghost start = candidate_views(known@);
    let ghost all = found@;
    let mut rest = found;
    let n = rest.len();
    let mut i: usize = 0;
    while rest.len() > 0
        invariant
            n == all.len(),
            i + rest@.len() == n,
            rest@ == all.skip(i as int),
            candidate_views(known@) == merged_candidates(start, candidate_views(all.take(i as int))),
        decreases rest.len(),
    {
        let c = rest.remove(0);
        assert(c == all[i as int]);
        assert(candidate_views(all.take(i + 1)).drop_last() =~= candidate_views(all.take(i as int)));
        assert(candidate_views(all.take(i + 1)).last() == c@);
        let url = chars_of(c.docs_url.as_str());
        if !url_listed_exec(known, &url) {
            let ghost prev = known@;
            known.push(c);
            assert(candidate_views(known@) =~= candidate_views(prev).push(c@));
        }
        i = i + 1;
        assert(rest@ =~= all.skip(i as int));
    }
    assert(all.take(n as int) =~= all);
}

/// The key that types are told apart and ordered by: namespace, then name.
pub open spec fn type_key(t: TypeModel) -> (Seq<char>, Seq<char>) {
    (t.namespace, t.api_type_name)
}

/// The order of keys: by namespace, then by name, each as `String` orders.
pub open spec fn key_lt(a: (Seq<char>, Seq<char>), b: (Seq<char>, Seq<char>)) -> bool {
    seq_lt(a.0, b.0) || (a.0 == b.0 && seq_lt(a.1, b.1))
}

fn key_lt_exec(a0: &str, a1: &str, b0: &str, b1: &str) -> (r: bool)
    ensures
        r == key_lt((a0@, a1@), (b0@, b1@)),
{
    let x0 = chars_of(a0);
    let y0 = chars_of(b0);
    crate::markup::chars_lt(&x0, &y0) || (chars_eq(&x0, &y0) && crate::markup::chars_lt(
        &chars_of(a1),
        &chars_of(b1),
    ))
}

/// The first index at or after `i` whose type has key `k`.
pub open spec fn key_index_from(v: Seq<TypeModel>, k: (Seq<char>, Seq<char>), i: int) -> Option<int>
    decreases v.len() - i,
{
    if i < 0 || i >= v.len() {
        None
    } else if type_key(v[i]) == k {
        Some(i)
    } else {
        key_index_from(v, k, i + 1)
    }
}

/// The types with `t` recorded under its key: it takes the place of the
/// type with the same key, or comes last.
pub open spec fn recorded(v: Seq<TypeModel>, t: TypeModel) -> Seq<TypeModel> {
    match key_index_from(v, type_key(t), 0) {
        Some(i) => v.update(i, t),
        None => v.push(t),
    }
}

proof fn lemma_key_index_from_bounds(v: Seq<TypeModel>, k: (Seq<char>, Seq<char>), i: int)
    ensures
        key_index_from(v, k, i) matches Some(j) ==> i <= j < v.len(),
    decreases v.len() - i,
{
    if 0 <= i < v.len() && type_key(v[i]) != k {
        lemma_key_index_from_bounds(v, k, i + 1);
    }
}

pub fn record_enum_type(enums: &mut Vec<GearBlocksApiScrapedType>, t: GearBlocksApiScrapedType)
    ensures
        type_views(final(enums)@) == recorded(type_views(old(enums)@), t@),
{
    let ghost v = type_views(enums@);
    let ghost k = type_key(t@);
    let ns = chars_of(t.namespace.as_str());
    let name = chars_of(t.api_type_name.as_str());
    let mut i: usize = 0;
    while i < enums.len()
        invariant
            i <= enums.len(),
            v == type_views(enums@),
            v == type_views(old(enums)@),
            k == type_key(t@),
            ns@ == t.namespace@,
            name@ == t.api_type_name@,
            key_index_from(v, k, 0) == key_index_from(v, k, i as int),
        decreases enums.len() - i,
    {
        assert(v[i as int] == enums@[i as int]@);
        if chars_eq(&chars_of(enums[i].namespace.as_str()), &ns) && chars_eq(
            &chars_of(enums[i].api_type_name.as_str()),
            &name,
        ) {
            assert(type_key(v[i as int]) == k);
            assert(key_index_from(v, k, i as int) == Some(i as int));
            let ghost before = enums@;
            let _old = enums.remove(i);
            enums.insert(i, t);
            assert(enums@ =~= before.update(i as int, t));
            assert(type_views(enums@) =~= v.update(i as int, t@));
            return;
        }
        i = i + 1;
    }
    let ghost before = enums@;
    enums.push(t);
    assert(type_views(enums@) =~= v.push(t@));
}

/// Where a type with key `k` goes among types in key order: after every
/// type whose key is not greater.
pub open spec fn key_position(s: Seq<TypeModel>, k: (Seq<char>, Seq<char>)) -> int
    decreases s.len(),
{
    if s.len() == 0 {
        0
    } else if !key_lt(k, type_key(s.last())) {
        s.len() as int
    } else {
        key_position(s.drop_last(), k)
    }
}

/// The types in key order, types of equal key in the order they came.
pub open spec fn types_by_key(s: Seq<TypeModel>) -> Seq<TypeModel>
    decreases s.len(),
{
    if s.len() == 0 {
        seq![]
    } else {
        let sorted = types_by_key(s.drop_last());
        sorted.insert(key_position(sorted, type_key(s.last())), s.last())
    }
}

proof fn lemma_key_position_bounds(s: Seq<TypeModel>, k: (Seq<char>, Seq<char>))
    ensures
        0 <= key_position(s, k) <= s.len(),
    decreases s.len(),
{
    if s.len() > 0 {
        lemma_key_position_bounds(s.drop_last(), k);
    }
}

pub fn sort_types_by_key(types: Vec<GearBlocksApiScrapedType>) -> (r: Vec<GearBlocksApiScrapedType>)
    ensures
        type_views(r@) == types_by_key(type_views(types@)),
{
    let ghost all = type_views(types@);
    let mut sorted: Vec<GearBlocksApiScrapedType> = Vec::new();
    let mut rest = types;
    let ghost all_items = rest@;
    let n = rest.len();
    let mut i: usize = 0;
    while rest.len() > 0
        invariant
            n == all.len(),
            all == type_views(all_items),
            i + rest@.len() == n,
            rest@ == all_items.skip(i as int),
            type_views(sorted@) == types_by_key(all.take(i as int)),
        decreases rest.len(),
    {
        let x = rest.remove(0);
        assert(x == all_items[i as int]);
        assert(all[i as int] == x@);
        let ghost k = type_key(x@);
        let ghost sv = type_views(sorted@);
        let mut j = sorted.len();
        assert(sv.take(j as int) =~= sv);
        while j > 0 && key_lt_exec(
            x.namespace.as_str(),
            x.api_type_name.as_str(),
            sorted[j - 1].namespace.as_str(),
            sorted[j - 1].api_type_name.as_str(),
        )
            invariant
                j <= sorted.len(),
                sv == type_views(sorted@),
                k == type_key(x@),
                key_position(sv, k) == key_position(sv.take(j as int), k),
            decreases j,
        {
            assert(sv.take(j as int).drop_last() =~= sv.take(j - 1));
            assert(sv.take(j as int).last() == sorted@[j - 1]@);
            j = j - 1;
        }
        proof {
            if j > 0 {
                assert(sv.take(j as int).last() == sorted@[j - 1]@);
            }
            assert(all.take(i + 1).drop_last() =~= all.take(i as int));
            lemma_key_position_bounds(sv, k);
        }
        let ghost before = sorted@;
        sorted.insert(j, x);
        assert(type_views(sorted@) =~= sv.insert(j as int, x@));
        i = i + 1;
        assert(rest@ =~= all_items.skip(i as int));
    }
    assert(all.take(n as int) =~= all);
    sorted
}

/// Where a candidate goes among candidates in key order.
pub open spec fn candidate_position(s: Seq<CandidateView>, k: (Seq<char>, Seq<char>)) -> int
    decreases s.len(),
{
    if s.len() == 0 {
        0
    } else if !key_lt(k, (s.last().0, s.last().1)) {
        s.len() as int
    } else {
        candidate_position(s.drop_last(), k)
    }
}

/// The candidates in key order, candidates of equal key in the order they
/// came: a stable sort by namespace, then name.
pub open spec fn candidates_by_key(s: Seq<CandidateView>) -> Seq<CandidateView>
    decreases s.len(),
{
    if s.len() == 0 {
        seq![]
    } else {
        let sorted = candidates_by_key(s.drop_last());
        sorted.insert(candidate_position(sorted, (s.last().0, s.last().1)), s.last())
    }
}

proof fn lemma_candidate_position_bounds(s: Seq<CandidateView>, k: (Seq<char>, Seq<char>))
    ensures
        0 <= candidate_position(s, k) <= s.len(),
    decreases s.len(),
{
    if s.len() > 0 {
        lemma_candidate_position_bounds(s.drop_last(), k);
    }
}

pub fn sort_candidates(candidates: Vec<TypeCandidate>) -> (r: Vec<TypeCandidate>)
    ensures
        candidate_views(r@) == candidates_by_key(candidate_views(candidates@)),
{
    let ghost all = candidate_views(candidates@);
    let mut sorted: Vec<TypeCandidate> = Vec::new();
    let mut rest = candidates;
    let ghost all_items = rest@;
    let n = rest.len();
    let mut i: usize = 0;
    while rest.len() > 0
        invariant
            n == all.len(),
            all == candidate_views(all_items),
            i + rest@.len() == n,
            rest@ == all_items.skip(i as int),
            candidate_views(sorted@) == candidates_by_key(all.take(i as int)),
        decreases rest.len(),
    {
        let x = rest.remove(0);
        assert(x == all_items[i as int]);
        assert(all[i as int] == x@);
        let ghost k = (x@.0, x@.1);
        let ghost sv = candidate_views(sorted@);
        let mut j = sorted.len();
        assert(sv.take(j as int) =~= sv);
        while j > 0 && key_lt_exec(
            x.namespace.as_str(),
            x.api_type_name.as_str(),
            sorted[j - 1].namespace.as_str(),
            sorted[j - 1].api_type_name.as_str(),
        )
            invariant
                j <= sorted.len(),
                sv == candidate_views(sorted@),
                k == (x@.0, x@.1),
                candidate_position(sv, k) == candidate_position(sv.take(j as int), k),
            decreases j,
        {
            assert(sv.take(j as int).drop_last() =~= sv.take(j - 1));
            assert(sv.take(j as int).last() == sorted@[j - 1]@);
            j = j - 1;
        }
        proof {
            if j > 0 {
                assert(sv.take(j as int).last() == sorted@[j - 1]@);
            }
            assert(all.take(i + 1).drop_last() =~= all.take(i as int));
            lemma_candidate_position_bounds(sv, k);
        }
        sorted.insert(j, x);
        assert(candidate_views(sorted@) =~= sv.insert(j as int, x@));
        i = i + 1;
        assert(rest@ =~= all_items.skip(i as int));
    }
    assert(all.take(n as int) =~= all);
    sorted
}

/// The types with each enumeration appended whose key no type has yet.
pub open spec fn with_missing_enums(types: Seq<TypeModel>, enums: Seq<TypeModel>) -> Seq<TypeModel>
    decreases enums.len(),
{
    if enums.len() == 0 {
        types
    } else {
        let m = with_missing_enums(types, enums.drop_last());
        if key_index_from(m, type_key(enums.last()), 0) is Some {
            m
        } else {
            m.push(enums.last())
        }
    }
}

fn has_key(types: &Vec<GearBlocksApiScrapedType>, namespace: &str, name: &str) -> (r: bool)
    ensures
        r == key_index_from(type_views(types@), (namespace@, name@), 0) is Some,
{
    let ghost v = type_views(types@);
    let ghost k = (namespace@, name@);
    let ns = chars_of(namespace);
    let nm = chars_of(name);
    let mut i: usize = 0;
    while i < types.len()
        invariant
            i <= types.len(),
            v == type_views(types@),
            k == (namespace@, name@),
            ns@ == namespace@,
            nm@ == name@,
            key_index_from(v, k, 0) == key_index_from(v, k, i as int),
        decreases types.len() - i,
    {
        assert(v[i as int] == types@[i as int]@);
        if chars_eq(&chars_of(types[i].namespace.as_str()), &ns) && chars_eq(
            &chars_of(types[i].api_type_name.as_str()),
            &nm,
        ) {
            return true;
        }
        i = i + 1;
    }
    false
}

/// The scrape's result: the types read from their pages, then the recorded
/// enumerations in key order that no type page described; the version the
/// hierarchy page named, else the fallback.
pub fn finish_scrape(
    source_version: Option<String>,
    fetched_pages: usize,
    types: Vec<GearBlocksApiScrapedType>,
    enums: Vec<GearBlocksApiScrapedType>,
) -> (r: GearBlocksApiScrape)
    ensures
        r.source@ == SOURCE@,
        r.source_version@ == match source_version {
            Some(v) => v@,
            None => SOURCE_VERSION_FALLBACK@,
        },
        r.docs_root@ == DOCS_ROOT@,
        r.fetched_pages == fetched_pages,
        type_views(r.types@) == with_missing_enums(type_views(types@), types_by_key(type_views(enums@))),
{
    let ordered = sort_types_by_key(enums);
    let ghost base = type_views(types@);
    let ghost all = type_views(ordered@);
    let ghost all_items = ordered@;
    let mut out = types;
    let mut rest = ordered;
    let n = rest.len();
    let mut i: usize = 0;
    while rest.len() > 0
        invariant
            n == all.len(),
            all == type_views(all_items),
            i + rest@.len() == n,
            rest@ == all_items.skip(i as int),
            type_views(out@) == with_missing_enums(base, all.take(i as int)),
        decreases rest.len(),
    {
        let e = rest.remove(0);
        assert(e == all_items[i as int]);
        assert(all[i as int] == e@);
        assert(all.take(i + 1).drop_last() =~= all.take(i as int));
        if !has_key(&out, e.namespace.as_str(), e.api_type_name.as_str()) {
            let ghost prev = out@;
            out.push(e);
            assert(type_views(out@) =~= type_views(prev).push(e@));
        }
        i = i + 1;
        assert(rest@ =~= all_items.skip(i as int));
    }
    assert(all.take(n as int) =~= all);
    GearBlocksApiScrape {
        source: crate::text::owned(SOURCE),
        source_version: match source_version {
            Some(v) => v,
            None => crate::text::owned(SOURCE_VERSION_FALLBACK),
        },
        docs_root: crate::text::owned(DOCS_ROOT),
        fetched_pages,
        types: out,
    }
}

/// What one namespace page adds: its type candidates (each page once) and
/// its enumerations, recorded by key.
pub fn absorb_namespace_page(
    candidates: &mut Vec<TypeCandidate>,
    enums: &mut Vec<GearBlocksApiScrapedType>,
    html: &str,
    namespace_url: &str,
)
    ensures
        candidate_views(final(candidates)@) == merged_candidates(
            candidate_views(old(candidates)@),
            namespace_candidates(html@),
        ),
        type_views(final(enums)@) == recorded_all(type_views(old(enums)@), namespace_enums(html@, namespace_url@)),
{
    let found = parse_namespace_type_candidates(html, namespace_url);
    add_candidates(candidates, found);
    let page_enums = parse_namespace_enums(html, namespace_url);
    let ghost start = type_views(enums@);
    let ghost all = type_views(page_enums@);
    let ghost all_items = page_enums@;
    let mut rest = page_enums;
    let n = rest.len();
    let mut i: usize = 0;
    while rest.len() > 0
        invariant
            n == all.len(),
            all == type_views(all_items),
            i + rest@.len() == n,
            rest@ == all_items.skip(i as int),
            type_views(enums@) == recorded_all(start, all.take(i as int)),
        decreases rest.len(),
    {
        let e = rest.remove(0);
        assert(e == all_items[i as int]);
        assert(all[i as int] == e@);
        assert(all.take(i + 1).drop_last() =~= all.take(i as int));
        record_enum_type(enums, e);
        i = i + 1;
        assert(rest@ =~= all_items.skip(i as int));
    }
    assert(all.take(n as int) =~= all);
}

/// The types with each of `ts` recorded in turn.
pub open spec fn recorded_all(v: Seq<TypeModel>, ts: Seq<TypeModel>) -> Seq<TypeModel>
    decreases ts.len(),
{
    if ts.len() == 0 {
        v
    } else {
        recorded(recorded_all(v, ts.drop_last()), ts.last())
    }
}

} // verus!
