//! Keybind settings: the default bindings, how typed key names are
//! normalised into shortcut text, and the rules a shortcut must follow.
use crate::text::{
    chars_eq, chars_eq_str, chars_of, contains, join, join_chars, keep_nonempty,
    split, starts_with, starts_with_str, string_of, strings, to_char_vecs,
    to_lowercase_chars, to_strings, trim, trim_chars, unicode_lowercase, upper_ascii,
    upper_ascii_chars, views, extend_chars, is_ascii_seq, lower_ascii, extend_str, slice_of,
};
use vstd::prelude::*;

verus! {

/// The application setting under which keybinds are stored.
pub const KEYBINDS_SETTING_KEY: &'static str = "keybinds_v1";

pub const TOGGLE_OVERLAY_ACTION: &'static str = "toggle_overlay";

pub const TOGGLE_OVERLAY_WAS_VISIBLE_ACTION: &'static str = "toggle_overlay_was_visible";

pub const TOGGLE_OVERLAY_WAS_HIDDEN_ACTION: &'static str = "toggle_overlay_was_hidden";

pub const GAME_CHAT_OVERLAY_ACTION: &'static str = "game_chat_overlay";

pub const GAME_CHAT_OVERLAY_WAS_HIDDEN_ACTION: &'static str = "game_chat_overlay_was_hidden";

pub const GAME_CHAT_SCREENSHOT_CAPTURE_ACTION: &'static str = "game_chat_region_capture";

pub const GAME_BUILD_GUIDE_OVERLAY_ACTION: &'static str = "game_build_guide_overlay";

pub const RECORD_SMOKING_EVENT_ACTION: &'static str = "record_smoking_event";

/// One configurable action and the key names bound to it.
#[derive(Clone, Debug)]
pub struct KeybindConfig {
    pub action: String,
    pub label: String,
    pub keys: Vec<String>,
}

/// A keybind as plain values: action, label, key names.
pub type KeybindView = (Seq<char>, Seq<char>, Seq<Seq<char>>);

impl View for KeybindConfig {
    type V = KeybindView;

    open spec fn view(&self) -> KeybindView {
        (self.action@, self.label@, strings(self.keys@))
    }
}

pub open spec fn keybind_views(v: Seq<KeybindConfig>) -> Seq<KeybindView> {
    v.map_values(|k: KeybindConfig| k@)
}

/// The bindings a fresh installation starts with, in display order.
pub open spec fn default_keybind_views() -> Seq<KeybindView> {
    seq![
        (TOGGLE_OVERLAY_ACTION@, "Toggle Overlay Forge"@, seq!["Ctrl"@, "Shift"@, "Space"@]),
        (GAME_CHAT_OVERLAY_ACTION@, "Open Gaming Chat Overlay"@, seq!["Ctrl"@, "Shift"@, "C"@]),
        (GAME_CHAT_SCREENSHOT_CAPTURE_ACTION@, "Capture Screenshot For Gaming Chat"@, seq![]),
        (
            GAME_BUILD_GUIDE_OVERLAY_ACTION@,
            "Toggle Gaming Build Guide Overlay"@,
            seq!["Ctrl"@, "Shift"@, "G"@],
        ),
        (RECORD_SMOKING_EVENT_ACTION@, "Record Cigarette"@, seq![]),
    ]
}

fn keybind(action: &str, label: &str, keys: Vec<&str>) -> (r: KeybindConfig)
    ensures
        r@ == (action@, label@, keys@.map_values(|k: &str| k@)),
{
    let mut out: Vec<String> = Vec::new();
    let mut i: usize = 0;
    while i < keys.len()
        invariant
            i <= keys.len(),
            strings(out@) == keys@.map_values(|k: &str| k@).take(i as int),
        decreases keys.len() - i,
    {
        let s = String::from_str(keys[i]);
        let ghost prev = out@;
        out.push(s);
        assert(strings(out@) =~= strings(prev).push(keys@[i as int]@));
        i = i + 1;
        assert(keys@.map_values(|k: &str| k@).take(i as int) =~= keys@.map_values(|k: &str| k@).take(
            i - 1,
        ).push(keys@[i - 1]@));
    }
    assert(keys@.map_values(|k: &str| k@).take(keys.len() as int) =~= keys@.map_values(
        |k: &str| k@,
    ));
    KeybindConfig { action: String::from_str(action), label: String::from_str(label), keys: out }
}

/// The default bindings.
pub fn default_keybinds() -> (r: Vec<KeybindConfig>)
    ensures
        keybind_views(r@) == default_keybind_views(),
{
    let mut r: Vec<KeybindConfig> = Vec::new();
    let a = keybind(TOGGLE_OVERLAY_ACTION, "Toggle Overlay Forge", vec!["Ctrl", "Shift", "Space"]);
    let b = keybind(GAME_CHAT_OVERLAY_ACTION, "Open Gaming Chat Overlay", vec!["Ctrl", "Shift", "C"]);
    let c = keybind(GAME_CHAT_SCREENSHOT_CAPTURE_ACTION, "Capture Screenshot For Gaming Chat", vec![]);
    let d = keybind(
        GAME_BUILD_GUIDE_OVERLAY_ACTION,
        "Toggle Gaming Build Guide Overlay",
        vec!["Ctrl", "Shift", "G"],
    );
    let e = keybind(RECORD_SMOKING_EVENT_ACTION, "Record Cigarette", vec![]);
    proof {
        assert(a@.2 =~= seq!["Ctrl"@, "Shift"@, "Space"@]);
        assert(b@.2 =~= seq!["Ctrl"@, "Shift"@, "C"@]);
        assert(c@.2 =~= Seq::<Seq<char>>::empty());
        assert(d@.2 =~= seq!["Ctrl"@, "Shift"@, "G"@]);
        assert(e@.2 =~= Seq::<Seq<char>>::empty());
    }
    r.push(a);
    r.push(b);
    r.push(c);
    r.push(d);
    r.push(e);
    assert(keybind_views(r@) =~= default_keybind_views());
    r
}

// ------------------------------------------------------------ key names

pub open spec fn is_mouse_name(value: Seq<char>) -> bool {
    ||| value == "MouseLeft"@
    ||| value == "MouseRight"@
    ||| value == "MouseMiddle"@
    ||| value == "Mouse4"@
    ||| value == "Mouse5"@
}

/// The canonical name of a key, given the trimmed, lower-cased name the
/// user typed: aliases map to one spelling, a single ASCII character is
/// upper-cased, anything else stays as it is.
pub open spec fn key_part_name(lower: Seq<char>) -> Seq<char> {
    if lower == "control"@ || lower == "ctrl"@ {
        "Ctrl"@
    } else if lower == "shift"@ {
        "Shift"@
    } else if lower == "option"@ || lower == "alt"@ {
        "Alt"@
    } else if lower == "space"@ {
        "Space"@
    } else if lower == "esc"@ || lower == "escape"@ {
        "Escape"@
    } else if lower == "mouseleft"@ || lower == "mouse1"@ || lower == "leftmouse"@ || lower
        == "leftclick"@ {
        "MouseLeft"@
    } else if lower == "mouseright"@ || lower == "mouse2"@ || lower == "rightmouse"@ || lower
        == "rightclick"@ {
        "MouseRight"@
    } else if lower == "mousemiddle"@ || lower == "mouse3"@ || lower == "middlemouse"@ || lower
        == "middleclick"@ {
        "MouseMiddle"@
    } else if lower == "mouse4"@ || lower == "xbutton1"@ || lower == "backmouse"@ {
        "Mouse4"@
    } else if lower == "mouse5"@ || lower == "xbutton2"@ || lower == "forwardmouse"@ {
        "Mouse5"@
    } else if lower.len() == 1 && (lower[0] as u32) < 128 {
        upper_ascii(lower)
    } else {
        lower
    }
}

/// Maps a trimmed, lower-cased key name to its canonical spelling.
pub fn key_part_from_lower(lower: &Vec<char>) -> (r: Vec<char>)
    ensures
        r@ == key_part_name(lower@),
{
    let l = lower;
    if chars_eq_str(l, "control") || chars_eq_str(l, "ctrl") {
        chars_of("Ctrl")
    } else if chars_eq_str(l, "shift") {
        chars_of("Shift")
    } else if chars_eq_str(l, "option") || chars_eq_str(l, "alt") {
        chars_of("Alt")
    } else if chars_eq_str(l, "space") {
        chars_of("Space")
    } else if chars_eq_str(l, "esc") || chars_eq_str(l, "escape") {
        chars_of("Escape")
    } else if chars_eq_str(l, "mouseleft") || chars_eq_str(l, "mouse1") || chars_eq_str(
        l,
        "leftmouse",
    ) || chars_eq_str(l, "leftclick") {
        chars_of("MouseLeft")
    } else if chars_eq_str(l, "mouseright") || chars_eq_str(l, "mouse2") || chars_eq_str(
        l,
        "rightmouse",
    ) || chars_eq_str(l, "rightclick") {
        chars_of("MouseRight")
    } else if chars_eq_str(l, "mousemiddle") || chars_eq_str(l, "mouse3") || chars_eq_str(
        l,
        "middlemouse",
    ) || chars_eq_str(l, "middleclick") {
        chars_of("MouseMiddle")
    } else if chars_eq_str(l, "mouse4") || chars_eq_str(l, "xbutton1") || chars_eq_str(
        l,
        "backmouse",
    ) {
        chars_of("Mouse4")
    } else if chars_eq_str(l, "mouse5") || chars_eq_str(l, "xbutton2") || chars_eq_str(
        l,
        "forwardmouse",
    ) {
        chars_of("Mouse5")
    } else if l.len() == 1 && (l[0] as u32) < 128 {
        upper_ascii_chars(l)
    } else {
        slice_of(l, 0, l.len())
    }
}

/// The canonical name of one typed key name.
pub open spec fn normalized_part(key: Seq<char>) -> Seq<char> {
    key_part_name(unicode_lowercase(trim(key)))
}

pub fn normalize_key_part_chars(key: &Vec<char>) -> (r: Vec<char>)
    ensures
        r@ == normalized_part(key@),
        is_ascii_seq(key@) ==> r@ == key_part_name(lower_ascii(trim(key@))),
{
    let t = trim_chars(key);
    proof {
        lemma_trim_ascii(key@);
    }
    let lower = to_lowercase_chars(&t);
    key_part_from_lower(&lower)
}

proof fn lemma_trim_ascii(s: Seq<char>)
    ensures
        is_ascii_seq(s) ==> is_ascii_seq(trim(s)),
{
    crate::text::lemma_trim_start_shape(s);
    crate::text::lemma_trim_end_shape(crate::text::trim_start(s));
    let a = crate::text::trim_start(s);
    if is_ascii_seq(s) {
        assert forall|i: int| 0 <= i < a.len() implies (#[trigger] a[i] as u32) < 128 by {
            assert(a[i] == s[s.len() - a.len() + i]);
        }
        let b = trim(s);
        assert forall|i: int| 0 <= i < b.len() implies (#[trigger] b[i] as u32) < 128 by {
            assert(b[i] == a[i]);
        }
    }
}

/// Every canonical key name (Ctrl, Shift, Alt, Space, Escape and the mouse
/// buttons), typed in any ASCII letter case, is normalized to that same
/// canonical name.
pub proof fn canonical_key_names_are_kept(name: Seq<char>, typed: Seq<char>)
    requires
        name == "Ctrl"@ || name == "Shift"@ || name == "Alt"@ || name == "Space"@ || name
            == "Escape"@ || is_mouse_name(name),
        lower_ascii(typed) == lower_ascii(name),
    ensures
        key_part_name(lower_ascii(typed)) == name,
{
    reveal_strlit("Ctrl");
    reveal_strlit("ctrl");
    reveal_strlit("Shift");
    reveal_strlit("shift");
    reveal_strlit("Alt");
    reveal_strlit("alt");
    reveal_strlit("Space");
    reveal_strlit("space");
    reveal_strlit("Escape");
    reveal_strlit("escape");
    reveal_strlit("MouseLeft");
    reveal_strlit("mouseleft");
    reveal_strlit("MouseRight");
    reveal_strlit("mouseright");
    reveal_strlit("MouseMiddle");
    reveal_strlit("mousemiddle");
    reveal_strlit("Mouse4");
    reveal_strlit("mouse4");
    reveal_strlit("Mouse5");
    reveal_strlit("mouse5");
    reveal_strlit("control");
    reveal_strlit("option");
    reveal_strlit("esc");
    reveal_strlit("mouse1");
    reveal_strlit("leftmouse");
    reveal_strlit("leftclick");
    reveal_strlit("mouse2");
    reveal_strlit("rightmouse");
    reveal_strlit("rightclick");
    reveal_strlit("mouse3");
    reveal_strlit("middlemouse");
    reveal_strlit("middleclick");
    reveal_strlit("xbutton1");
    reveal_strlit("backmouse");
    reveal_strlit("xbutton2");
    reveal_strlit("forwardmouse");
    if name == "Ctrl"@ {
        assert(lower_ascii(name) =~= "ctrl"@);
        assert(key_part_name("ctrl"@) == "Ctrl"@);
    } else if name == "Shift"@ {
        assert(lower_ascii(name) =~= "shift"@);
        assert(key_part_name("shift"@) == "Shift"@);
    } else if name == "Alt"@ {
        assert(lower_ascii(name) =~= "alt"@);
        assert(key_part_name("alt"@) == "Alt"@);
    } else if name == "Space"@ {
        assert(lower_ascii(name) =~= "space"@);
        assert("space"@ != "shift"@) by {
            assert("space"@[1] != "shift"@[1]);
        }
        assert(key_part_name("space"@) == "Space"@);
    } else if name == "Escape"@ {
        assert(lower_ascii(name) =~= "escape"@);
        assert("escape"@ != "option"@) by {
            assert("escape"@[0] != "option"@[0]);
        }
        assert(key_part_name("escape"@) == "Escape"@);
    } else if name == "MouseLeft"@ {
        assert(lower_ascii(name) =~= "mouseleft"@);
        assert(key_part_name("mouseleft"@) == "MouseLeft"@);
    } else if name == "MouseRight"@ {
        assert(lower_ascii(name) =~= "mouseright"@);
        assert(key_part_name("mouseright"@) == "MouseRight"@);
    } else if name == "MouseMiddle"@ {
        assert(lower_ascii(name) =~= "mousemiddle"@);
        assert(key_part_name("mousemiddle"@) == "MouseMiddle"@);
    } else if name == "Mouse4"@ {
        assert(lower_ascii(name) =~= "mouse4"@);
        assert("mouse4"@ != "mouse1"@) by {
            assert("mouse4"@[5] != "mouse1"@[5]);
        }
        assert("mouse4"@ != "mouse2"@) by {
            assert("mouse4"@[5] != "mouse2"@[5]);
        }
        assert("mouse4"@ != "mouse3"@) by {
            assert("mouse4"@[5] != "mouse3"@[5]);
        }
        assert("mouse4"@ != "option"@) by {
            assert("mouse4"@[0] != "option"@[0]);
        }
        assert("mouse4"@ != "escape"@) by {
            assert("mouse4"@[0] != "escape"@[0]);
        }
        assert(key_part_name("mouse4"@) == "Mouse4"@);
    } else {
        assert(lower_ascii(name) =~= "mouse5"@);
        assert("mouse5"@ != "mouse1"@) by {
            assert("mouse5"@[5] != "mouse1"@[5]);
        }
        assert("mouse5"@ != "mouse2"@) by {
            assert("mouse5"@[5] != "mouse2"@[5]);
        }
        assert("mouse5"@ != "mouse3"@) by {
            assert("mouse5"@[5] != "mouse3"@[5]);
        }
        assert("mouse5"@ != "mouse4"@) by {
            assert("mouse5"@[5] != "mouse4"@[5]);
        }
        assert("mouse5"@ != "option"@) by {
            assert("mouse5"@[0] != "option"@[0]);
        }
        assert("mouse5"@ != "escape"@) by {
            assert("mouse5"@[0] != "escape"@[0]);
        }
        assert(key_part_name("mouse5"@) == "Mouse5"@);
    }
}

/// Normalises one typed key name.
pub fn normalize_key_part(key: &str) -> (r: String)
    ensures
        r@ == normalized_part(key@),
{
    let v = chars_of(key);
    string_of(&normalize_key_part_chars(&v))
}

/// The first three elements, or all of them.
pub open spec fn first_three<T>(s: Seq<T>) -> Seq<T> {
    if s.len() <= 3 {
        s
    } else {
        s.take(3)
    }
}

pub open spec fn normalized_parts(keys: Seq<Seq<char>>) -> Seq<Seq<char>> {
    keys.map_values(|k: Seq<char>| normalized_part(k))
}

/// The canonical key names of a binding: a single entry holding `+` is
/// split at the pluses; otherwise the first three entries are taken. Names
/// that normalise to nothing are dropped, and at most three are kept.
pub open spec fn key_parts(keys: Seq<Seq<char>>) -> Seq<Seq<char>> {
    let raw = if keys.len() == 1 && contains(keys[0], seq!['+']) {
        split(keys[0], seq!['+'])
    } else {
        first_three(keys)
    };
    first_three(keep_nonempty(normalized_parts(raw)))
}

/// Normalises every name, dropping those that become empty.
fn normalize_nonempty(raw: &Vec<Vec<char>>) -> (r: Vec<Vec<char>>)
    ensures
        views(r@) == keep_nonempty(normalized_parts(views(raw@))),
{
    let ghost all = normalized_parts(views(raw@));
    let mut out: Vec<Vec<char>> = Vec::new();
    let mut i: usize = 0;
    while i < raw.len()
        invariant
            i <= raw.len(),
            all == normalized_parts(views(raw@)),
            views(out@) == keep_nonempty(all.take(i as int)),
        decreases raw.len() - i,
    {
        let p = normalize_key_part_chars(&raw[i]);
        assert(all.take(i + 1).drop_last() =~= all.take(i as int));
        assert(all.take(i + 1).last() == p@);
        if p.len() > 0 {
            let ghost prev = out@;
            out.push(p);
            assert(views(out@) =~= views(prev).push(p@));
        }
        i = i + 1;
    }
    assert(all.take(raw.len() as int) =~= all);
    out
}

fn first_three_vecs(v: Vec<Vec<char>>) -> (r: Vec<Vec<char>>)
    ensures
        views(r@) == first_three(views(v@)),
{
    let ghost original = v@;
    let mut v = v;
    if v.len() > 3 {
        v.truncate(3);
        assert(views(v@) =~= views(original).take(3));
    }
    v
}

pub fn normalize_key_parts_chars(keys: &Vec<Vec<char>>) -> (r: Vec<Vec<char>>)
    ensures
        views(r@) == key_parts(views(keys@)),
        r@.len() <= 3,
        forall|i: int| 0 <= i < r@.len() ==> (#[trigger] r@[i])@.len() > 0,
{
    let plus = vec!['+'];
    assert(plus@ =~= seq!['+']);
    let raw = if keys.len() == 1 && crate::text::contains_exec(&keys[0], &plus) {
        crate::text::split_chars(&keys[0], &plus)
    } else {
        let mut t: Vec<Vec<char>> = Vec::new();
        let mut i: usize = 0;
        while i < keys.len() && i < 3
            invariant
                i <= keys.len(),
                i <= 3,
                views(t@) == views(keys@).take(i as int),
            decreases keys.len() - i,
        {
            let k = slice_of(&keys[i], 0, keys[i].len());
            assert(k@ =~= keys@[i as int]@);
            let ghost prev = t@;
            t.push(k);
            assert(views(t@) =~= views(prev).push(k@));
            i = i + 1;
            assert(views(keys@).take(i as int) =~= views(keys@).take(i - 1).push(
                keys@[i - 1]@,
            ));
        }
        assert(views(keys@).take(i as int) =~= first_three(views(keys@)));
        t
    };
    let parts = normalize_nonempty(&raw);
    proof {
        lemma_keep_nonempty_all(normalized_parts(views(raw@)));
    }
    let r = first_three_vecs(parts);
    assert(views(r@).len() == r@.len());
    proof {
        assert forall|i: int| 0 <= i < r@.len() implies (#[trigger] r@[i])@.len() > 0 by {
            assert(views(r@)[i] == r@[i]@);
        }
    }
    r
}

/// Every piece that `keep_nonempty` keeps is non-empty.
pub proof fn lemma_keep_nonempty_all(parts: Seq<Seq<char>>)
    ensures
        forall|i: int|
            0 <= i < keep_nonempty(parts).len() ==> (#[trigger] keep_nonempty(parts)[i]).len() > 0,
    decreases parts.len(),
{
    if parts.len() > 0 {
        lemma_keep_nonempty_all(parts.drop_last());
        let rest = keep_nonempty(parts.drop_last());
        let kn = keep_nonempty(parts);
        assert forall|i: int| 0 <= i < kn.len() implies (#[trigger] kn[i]).len() > 0 by {
            if i < rest.len() {
                assert(kn[i] == rest[i]);
            }
        }
    }
}

/// The canonical key names of a binding.
pub fn normalize_key_parts(keys: &Vec<String>) -> (r: Vec<String>)
    ensures
        strings(r@) == key_parts(strings(keys@)),
        r@.len() <= 3,
{
    let k = to_char_vecs(keys);
    let parts = normalize_key_parts_chars(&k);
    let r = to_strings(&parts);
    assert(strings(r@).len() == r@.len());
    assert(views(parts@).len() == parts@.len());
    r
}

/// The shortcut text of a binding: its canonical key names joined by `+`.
pub open spec fn shortcut_text(keys: Seq<Seq<char>>) -> Seq<char> {
    join(key_parts(keys), seq!['+'])
}

pub fn shortcut_from_key_parts_chars(keys: &Vec<Vec<char>>) -> (r: Vec<char>)
    ensures
        r@ == shortcut_text(views(keys@)),
{
    let parts = normalize_key_parts_chars(keys);
    let plus = vec!['+'];
    assert(plus@ =~= seq!['+']);
    join_chars(&parts, &plus)
}

pub fn shortcut_from_key_parts(keys: &Vec<String>) -> (r: String)
    ensures
        r@ == shortcut_text(strings(keys@)),
{
    let k = to_char_vecs(keys);
    string_of(&shortcut_from_key_parts_chars(&k))
}

pub fn is_mouse_key_chars(value: &Vec<char>) -> (r: bool)
    ensures
        r == is_mouse_name(value@),
{
    chars_eq_str(value, "MouseLeft") || chars_eq_str(value, "MouseRight") || chars_eq_str(
        value,
        "MouseMiddle",
    ) || chars_eq_str(value, "Mouse4") || chars_eq_str(value, "Mouse5")
}

pub fn is_mouse_key(value: &str) -> (r: bool)
    ensures
        r == is_mouse_name(value@),
{
    let v = chars_of(value);
    is_mouse_key_chars(&v)
}

pub open spec fn supported_modifier(value: Seq<char>) -> bool {
    value == "Ctrl"@ || value == "Shift"@ || value == "Alt"@
}

pub fn is_supported_modifier_chars(value: &Vec<char>) -> (r: bool)
    ensures
        r == supported_modifier(value@),
{
    chars_eq_str(value, "Ctrl") || chars_eq_str(value, "Shift") || chars_eq_str(value, "Alt")
}

pub fn is_supported_modifier(value: &str) -> (r: bool)
    ensures
        r == supported_modifier(value@),
{
    let v = chars_of(value);
    is_supported_modifier_chars(&v)
}

/// Whether some `+`-separated piece of the text names a mouse button.
pub open spec fn mouse_text(value: Seq<char>) -> bool {
    let pieces = split(value, seq!['+']);
    exists|i: int| 0 <= i < pieces.len() && is_mouse_name(normalized_part(#[trigger] pieces[i]))
}

pub fn is_mouse_shortcut_text_chars(value: &Vec<char>) -> (r: bool)
    ensures
        r == mouse_text(value@),
{
    let plus = vec!['+'];
    assert(plus@ =~= seq!['+']);
    let pieces = crate::text::split_chars(value, &plus);
    let mut i: usize = 0;
    while i < pieces.len()
        invariant
            i <= pieces.len(),
            views(pieces@) == split(value@, seq!['+']),
            forall|j: int|
                0 <= j < i ==> !is_mouse_name(normalized_part(#[trigger] views(pieces@)[j])),
        decreases pieces.len() - i,
    {
        let p = normalize_key_part_chars(&pieces[i]);
        assert(views(pieces@)[i as int] == pieces@[i as int]@);
        if is_mouse_key_chars(&p) {
            return true;
        }
        i = i + 1;
    }
    false
}

pub fn is_mouse_shortcut_text(value: &str) -> (r: bool)
    ensures
        r == mouse_text(value@),
{
    let v = chars_of(value);
    is_mouse_shortcut_text_chars(&v)
}

// ------------------------------------------------------------ mouse shortcuts

/// How many of the names are mouse buttons.
pub open spec fn mouse_count(parts: Seq<Seq<char>>) -> nat
    decreases parts.len(),
{
    if parts.len() == 0 {
        0
    } else {
        mouse_count(parts.drop_last()) + if is_mouse_name(parts.last()) {
            1nat
        } else {
            0nat
        }
    }
}

/// Splits the names of a mouse shortcut into its modifiers and its one
/// mouse button, which must come last.
pub open spec fn mouse_split(parts: Seq<Seq<char>>) -> Result<(Seq<Seq<char>>, Seq<char>), Seq<char>> {
    if parts.len() == 0 {
        Err("Mouse shortcut cannot be empty"@)
    } else if mouse_count(parts) != 1 {
        Err("Mouse shortcuts must include exactly one mouse button"@)
    } else if !is_mouse_name(parts.last()) {
        Err("Mouse button must be the final keybind part"@)
    } else {
        Ok((parts.drop_last(), parts.last()))
    }
}

pub fn split_mouse_shortcut_parts_chars(parts: &Vec<Vec<char>>) -> (r: Result<
    (Vec<Vec<char>>, Vec<char>),
    Vec<char>,
>)
    ensures
        match r {
            Ok((m, k)) => mouse_split(views(parts@)) == Ok::<(Seq<Seq<char>>, Seq<char>), Seq<char>>(
                (views(m@), k@),
            ),
            Err(e) => mouse_split(views(parts@)) == Err::<(Seq<Seq<char>>, Seq<char>), Seq<char>>(
                e@,
            ),
        },
{
    if parts.len() == 0 {
        return Err(chars_of("Mouse shortcut cannot be empty"));
    }
    let mut count: usize = 0;
    let mut i: usize = 0;
    while i < parts.len()
        invariant
            i <= parts.len(),
            count == mouse_count(views(parts@).take(i as int)),
            count <= i,
        decreases parts.len() - i,
    {
        assert(views(parts@).take(i + 1).drop_last() =~= views(parts@).take(i as int));
        assert(views(parts@).take(i + 1).last() == parts@[i as int]@);
        if is_mouse_key_chars(&parts[i]) {
            count = count + 1;
        }
        i = i + 1;
    }
    assert(views(parts@).take(parts.len() as int) =~= views(parts@));
    if count != 1 {
        return Err(chars_of("Mouse shortcuts must include exactly one mouse button"));
    }
    let last = parts.len() - 1;
    assert(views(parts@).last() == parts@[last as int]@);
    if !is_mouse_key_chars(&parts[last]) {
        return Err(chars_of("Mouse button must be the final keybind part"));
    }
    let key = slice_of(&parts[last], 0, parts[last].len());
    assert(key@ =~= parts@[last as int]@);
    let mut modifiers: Vec<Vec<char>> = Vec::new();
    let mut j: usize = 0;
    while j < last
        invariant
            j <= last,
            last + 1 == parts.len(),
            views(modifiers@) == views(parts@).take(j as int),
        decreases last - j,
    {
        let m = slice_of(&parts[j], 0, parts[j].len());
        assert(m@ =~= parts@[j as int]@);
        let ghost prev = modifiers@;
        modifiers.push(m);
        assert(views(modifiers@) =~= views(prev).push(m@));
        j = j + 1;
        assert(views(parts@).take(j as int) =~= views(parts@).take(j - 1).push(parts@[j - 1]@));
    }
    assert(views(parts@).take(last as int) =~= views(parts@).drop_last());
    Ok((modifiers, key))
}

/// The canonical names of a shortcut text's `+`-separated pieces, empty
/// ones dropped.
pub open spec fn shortcut_parts(value: Seq<char>) -> Seq<Seq<char>> {
    keep_nonempty(normalized_parts(split(value, seq!['+'])))
}

pub fn shortcut_parts_chars(value: &Vec<char>) -> (r: Vec<Vec<char>>)
    ensures
        views(r@) == shortcut_parts(value@),
{
    let plus = vec!['+'];
    assert(plus@ =~= seq!['+']);
    let pieces = crate::text::split_chars(value, &plus);
    normalize_nonempty(&pieces)
}

/// The canonical text of a mouse shortcut: modifiers, then the button.
pub open spec fn mouse_normalized(value: Seq<char>) -> Result<Seq<char>, Seq<char>> {
    match mouse_split(shortcut_parts(value)) {
        Ok((modifiers, key)) => Ok(join(modifiers.push(key), seq!['+'])),
        Err(e) => Err(e),
    }
}

pub fn normalize_mouse_shortcut_text_chars(value: &Vec<char>) -> (r: Result<Vec<char>, Vec<char>>)
    ensures
        match r {
            Ok(n) => mouse_normalized(value@) == Ok::<Seq<char>, Seq<char>>(n@),
            Err(e) => mouse_normalized(value@) == Err::<Seq<char>, Seq<char>>(e@),
        },
{
    let parts = shortcut_parts_chars(value);
    match split_mouse_shortcut_parts_chars(&parts) {
        Ok((modifiers, key)) => {
            let mut normalized = modifiers;
            let ghost prev = normalized@;
            let ghost kv = key@;
            normalized.push(key);
            assert(views(normalized@) =~= views(prev).push(kv));
            let plus = vec!['+'];
            assert(plus@ =~= seq!['+']);
            Ok(join_chars(&normalized, &plus))
        },
        Err(e) => Err(e),
    }
}

pub fn normalize_mouse_shortcut_text(value: &str) -> (r: Result<String, String>)
    ensures
        match r {
            Ok(n) => mouse_normalized(value@) == Ok::<Seq<char>, Seq<char>>(n@),
            Err(e) => mouse_normalized(value@) == Err::<Seq<char>, Seq<char>>(e@),
        },
{
    let v = chars_of(value);
    match normalize_mouse_shortcut_text_chars(&v) {
        Ok(n) => Ok(string_of(&n)),
        Err(e) => Err(string_of(&e)),
    }
}

/// The first problem among the modifiers `0..n`: one that is not Ctrl,
/// Shift or Alt, or one that repeats an earlier one. (Case folding cannot
/// make two of Ctrl, Shift and Alt equal, so a repeat is an exact repeat.)
pub open spec fn modifier_problem(modifiers: Seq<Seq<char>>, n: int) -> Option<Seq<char>>
    decreases n,
{
    if n <= 0 {
        None
    } else {
        match modifier_problem(modifiers, n - 1) {
            Some(e) => Some(e),
            None => {
                let m = modifiers[n - 1];
                if !supported_modifier(m) {
                    Some(m + " is not supported as a mouse shortcut modifier"@)
                } else if modifiers.take(n - 1).contains(m) {
                    Some("Duplicate keybind part is not allowed: "@ + m)
                } else {
                    None
                }
            },
        }
    }
}

/// Whether a mouse shortcut may be bound: at most two modifiers, each of
/// them Ctrl, Shift or Alt and none twice, and a modifier before a left or
/// right click.
pub open spec fn mouse_policy(value: Seq<char>) -> Result<(), Seq<char>> {
    match mouse_split(shortcut_parts(value)) {
        Err(e) => Err(e),
        Ok((modifiers, key)) => if modifiers.len() > 2 {
            Err("Use at most two modifier keys plus one normal key"@)
        } else {
            match modifier_problem(modifiers, modifiers.len() as int) {
                Some(e) => Err(e),
                None => if modifiers.len() == 0 && (key == "MouseLeft"@ || key == "MouseRight"@) {
                    Err(key + " requires Ctrl, Shift, or Alt so normal clicks are not intercepted"@)
                } else {
                    Ok(())
                },
            }
        },
    }
}

pub fn validate_mouse_shortcut_policy_chars(value: &Vec<char>) -> (r: Result<(), Vec<char>>)
    ensures
        match r {
            Ok(()) => mouse_policy(value@) == Ok::<(), Seq<char>>(()),
            Err(e) => mouse_policy(value@) == Err::<(), Seq<char>>(e@),
        },
{
    let parts = shortcut_parts_chars(value);
    let (modifiers, key) = match split_mouse_shortcut_parts_chars(&parts) {
        Ok(x) => x,
        Err(e) => return Err(e),
    };
    if modifiers.len() > 2 {
        return Err(chars_of("Use at most two modifier keys plus one normal key"));
    }
    let ghost mv = views(modifiers@);
    let mut i: usize = 0;
    while i < modifiers.len()
        invariant
            i <= modifiers.len() <= 2,
            mv == views(modifiers@),
            mouse_split(shortcut_parts(value@)) == Ok::<(Seq<Seq<char>>, Seq<char>), Seq<char>>(
                (mv, key@),
            ),
            modifier_problem(mv, i as int) is None,
        decreases modifiers.len() - i,
    {
        let m = &modifiers[i];
        assert(mv[i as int] == m@);
        if !is_supported_modifier_chars(m) {
            let mut e = slice_of(m, 0, m.len());
            extend_str(&mut e, " is not supported as a mouse shortcut modifier");
            assert(e@ =~= m@ + " is not supported as a mouse shortcut modifier"@);
            proof {
                assert(modifier_problem(mv, i as int + 1) == Some(
                    mv[i as int] + " is not supported as a mouse shortcut modifier"@,
                ));
                lemma_modifier_problem_prefix(mv, i as int + 1, mv.len() as int);
            }
            return Err(e);
        }
        let mut j: usize = 0;
        while j < i
            invariant
                j <= i < modifiers.len() <= 2,
                mv == views(modifiers@),
                mv[i as int] == m@,
                modifier_problem(mv, i as int) is None,
                mouse_split(shortcut_parts(value@)) == Ok::<(Seq<Seq<char>>, Seq<char>), Seq<char>>(
                    (mv, key@),
                ),
                forall|k: int| 0 <= k < j ==> mv[k] != mv[i as int],
            decreases i - j,
        {
            assert(mv[j as int] == modifiers@[j as int]@);
            if chars_eq(&modifiers[j], m) {
                let mut e = chars_of("Duplicate keybind part is not allowed: ");
                extend_chars(&mut e, m);
                proof {
                    assert(mv.take(i as int)[j as int] == mv[i as int]);
                    assert(mv.take(i as int).contains(mv[i as int]));
                    lemma_modifier_problem_prefix(mv, i as int + 1, mv.len() as int);
                }
                return Err(e);
            }
            j = j + 1;
        }
        proof {
            if mv.take(i as int).contains(mv[i as int]) {
                let k = choose|k: int| 0 <= k < i && mv.take(i as int)[k] == mv[i as int];
                assert(mv[k] == mv[i as int]);
            }
        }
        i = i + 1;
    }
    if modifiers.len() == 0 && (chars_eq_str(&key, "MouseLeft") || chars_eq_str(&key, "MouseRight")) {
        let mut e = slice_of(&key, 0, key.len());
        extend_str(&mut e, " requires Ctrl, Shift, or Alt so normal clicks are not intercepted");
        assert(e@ =~= key@ + " requires Ctrl, Shift, or Alt so normal clicks are not intercepted"@);
        return Err(e);
    }
    Ok(())
}

/// Once a prefix of the modifiers has a problem, every longer prefix
/// reports that same problem.
pub proof fn lemma_modifier_problem_prefix(modifiers: Seq<Seq<char>>, n: int, m: int)
    requires
        0 <= n <= m,
        modifier_problem(modifiers, n) is Some,
    ensures
        modifier_problem(modifiers, m) == modifier_problem(modifiers, n),
    decreases m - n,
{
    if m > n {
        lemma_modifier_problem_prefix(modifiers, n, m - 1);
    }
}

pub fn validate_mouse_shortcut_policy(value: &str) -> (r: Result<(), String>)
    ensures
        match r {
            Ok(()) => mouse_policy(value@) == Ok::<(), Seq<char>>(()),
            Err(e) => mouse_policy(value@) == Err::<(), Seq<char>>(e@),
        },
{
    let v = chars_of(value);
    match validate_mouse_shortcut_policy_chars(&v) {
        Ok(()) => Ok(()),
        Err(e) => Err(string_of(&e)),
    }
}


// ------------------------------------------------------------ keyboard shortcuts

/// The modifier keys of a parsed keyboard shortcut.
#[derive(Clone, Copy, PartialEq, Eq, Structural)]
pub struct ShortcutModifiers {
    pub control: bool,
    pub shift: bool,
    pub alt: bool,
    pub super_key: bool,
}

/// How a key code is shown: letter and digit codes lose their `Key` and
/// `Digit` prefixes.
pub open spec fn code_display(code: Seq<char>) -> Seq<char> {
    if starts_with(code, "Key"@) {
        code.skip(3)
    } else if starts_with(code, "Digit"@) {
        code.skip(5)
    } else {
        code
    }
}

pub fn display_code_chars(code: &Vec<char>) -> (r: Vec<char>)
    ensures
        r@ == code_display(code@),
{
    proof {
        reveal_strlit("Key");
        reveal_strlit("Digit");
    }
    if starts_with_str(code, "Key") {
        let r = slice_of(code, 3, code.len());
        assert(r@ =~= code@.skip(3));
        r
    } else if starts_with_str(code, "Digit") {
        let r = slice_of(code, 5, code.len());
        assert(r@ =~= code@.skip(5));
        r
    } else {
        slice_of(code, 0, code.len())
    }
}

/// Shows a key code by its name (`KeyA` as `A`, `Digit1` as `1`).
pub fn display_code(code: &str) -> (r: String)
    ensures
        r@ == code_display(code@),
{
    let v = chars_of(code);
    string_of(&display_code_chars(&v))
}

pub open spec fn modifier_names(mods: ShortcutModifiers) -> Seq<Seq<char>> {
    (if mods.control {
        seq!["Ctrl"@]
    } else {
        seq![]
    }) + (if mods.shift {
        seq!["Shift"@]
    } else {
        seq![]
    }) + (if mods.alt {
        seq!["Alt"@]
    } else {
        seq![]
    }) + (if mods.super_key {
        seq!["Super"@]
    } else {
        seq![]
    })
}

/// The canonical text of a keyboard shortcut: Ctrl, Shift, Alt and Super
/// as present, then the key, joined by `+`.
pub open spec fn keyboard_text(mods: ShortcutModifiers, code: Seq<char>) -> Seq<char> {
    join(modifier_names(mods).push(code_display(code)), seq!['+'])
}

pub fn normalize_keyboard_shortcut(mods: ShortcutModifiers, code: &str) -> (r: String)
    ensures
        r@ == keyboard_text(mods, code@),
{
    let mut parts: Vec<Vec<char>> = Vec::new();
    if mods.control {
        parts.push(chars_of("Ctrl"));
    }
    let ghost a = views(parts@);
    if mods.shift {
        parts.push(chars_of("Shift"));
    }
    let ghost b = views(parts@);
    if mods.alt {
        parts.push(chars_of("Alt"));
    }
    let ghost c = views(parts@);
    if mods.super_key {
        parts.push(chars_of("Super"));
    }
    let ghost d = views(parts@);
    let cv = chars_of(code);
    let shown = display_code_chars(&cv);
    parts.push(shown);
    proof {
        assert(a =~= (if mods.control {
            seq!["Ctrl"@]
        } else {
            seq![]
        }));
        assert(d =~= modifier_names(mods));
        assert(views(parts@) =~= modifier_names(mods).push(code_display(code@)));
    }
    let plus = vec!['+'];
    assert(plus@ =~= seq!['+']);
    string_of(&join_chars(&parts, &plus))
}

/// Letter, digit, space and punctuation keys.
pub open spec fn printable_code(code: Seq<char>) -> bool {
    ||| (code.len() == 4 && starts_with(code, "Key"@) && 'A' <= code[3] <= 'Z')
    ||| (code.len() == 6 && starts_with(code, "Digit"@) && '0' <= code[5] <= '9')
    ||| code == "Space"@
    ||| code == "Minus"@
    ||| code == "Equal"@
    ||| code == "BracketLeft"@
    ||| code == "BracketRight"@
    ||| code == "Backslash"@
    ||| code == "Semicolon"@
    ||| code == "Quote"@
    ||| code == "Comma"@
    ||| code == "Period"@
    ||| code == "Slash"@
    ||| code == "Backquote"@
}

pub open spec fn editing_letter(c: char) -> bool {
    c == 'A' || c == 'C' || c == 'F' || c == 'N' || c == 'P' || c == 'R' || c == 'S' || c == 'T'
        || c == 'V' || c == 'W' || c == 'X' || c == 'Y' || c == 'Z'
}

/// The letter keys of the usual editing commands (select all, copy, find,
/// new, print, reload, save, new tab, paste, close, cut, redo, undo).
pub open spec fn editing_code(code: Seq<char>) -> bool {
    code.len() == 4 && starts_with(code, "Key"@) && editing_letter(code[3])
}

pub fn is_printable_key(code: &str) -> (r: bool)
    ensures
        r == printable_code(code@),
{
    let v = chars_of(code);
    (v.len() == 4 && starts_with_str(&v, "Key") && 'A' <= v[3] && v[3] <= 'Z') || (v.len() == 6
        && starts_with_str(&v, "Digit") && '0' <= v[5] && v[5] <= '9') || chars_eq_str(&v, "Space")
        || chars_eq_str(&v, "Minus") || chars_eq_str(&v, "Equal") || chars_eq_str(
        &v,
        "BracketLeft",
    ) || chars_eq_str(&v, "BracketRight") || chars_eq_str(&v, "Backslash") || chars_eq_str(
        &v,
        "Semicolon",
    ) || chars_eq_str(&v, "Quote") || chars_eq_str(&v, "Comma") || chars_eq_str(&v, "Period")
        || chars_eq_str(&v, "Slash") || chars_eq_str(&v, "Backquote")
}

pub fn is_common_editing_key(code: &str) -> (r: bool)
    ensures
        r == editing_code(code@),
{
    let v = chars_of(code);
    if v.len() == 4 && starts_with_str(&v, "Key") {
        let c = v[3];
        c == 'A' || c == 'C' || c == 'F' || c == 'N' || c == 'P' || c == 'R' || c == 'S' || c
            == 'T' || c == 'V' || c == 'W' || c == 'X' || c == 'Y' || c == 'Z'
    } else {
        false
    }
}

pub open spec fn modifier_count(mods: ShortcutModifiers) -> int {
    (if mods.control {
        1int
    } else {
        0
    }) + (if mods.shift {
        1int
    } else {
        0
    }) + (if mods.alt {
        1int
    } else {
        0
    }) + (if mods.super_key {
        1int
    } else {
        0
    })
}

/// Whether a keyboard shortcut may be bound globally: at most two
/// modifiers; not Escape, Tab, Caps Lock or Print Screen; no Super key; not
/// Alt+F4; no printable key alone; and not Ctrl alone with an editing key.
pub open spec fn keyboard_policy(mods: ShortcutModifiers, code: Seq<char>) -> Result<(), Seq<char>> {
    if modifier_count(mods) > 2 {
        Err("Use at most two modifier keys plus one normal key"@)
    } else if code == "Escape"@ || code == "Tab"@ || code == "CapsLock"@ || code
        == "PrintScreen"@ {
        Err(code_display(code) + " is reserved and cannot be mapped"@)
    } else if mods.super_key {
        Err("Windows/Super key shortcuts are reserved for the operating system"@)
    } else if mods.alt && code == "F4"@ {
        Err("Alt+F4 is reserved for closing windows"@)
    } else if modifier_count(mods) == 0 && printable_code(code) {
        Err("Single printable keys are not allowed as global shortcuts"@)
    } else if mods.control && !mods.shift && !mods.alt && !mods.super_key && editing_code(code) {
        Err("Ctrl+"@ + code_display(code) + " is reserved for common app editing commands"@)
    } else {
        Ok(())
    }
}

pub fn keyboard_shortcut_policy(mods: ShortcutModifiers, code: &str) -> (r: Result<(), String>)
    ensures
        match r {
            Ok(()) => keyboard_policy(mods, code@) == Ok::<(), Seq<char>>(()),
            Err(e) => keyboard_policy(mods, code@) == Err::<(), Seq<char>>(e@),
        },
{
    let v = chars_of(code);
    let count: u8 = (if mods.control {
        1u8
    } else {
        0
    }) + (if mods.shift {
        1u8
    } else {
        0
    }) + (if mods.alt {
        1u8
    } else {
        0
    }) + (if mods.super_key {
        1u8
    } else {
        0
    });
    if count > 2 {
        return Err(String::from_str("Use at most two modifier keys plus one normal key"));
    }
    if chars_eq_str(&v, "Escape") || chars_eq_str(&v, "Tab") || chars_eq_str(&v, "CapsLock")
        || chars_eq_str(&v, "PrintScreen") {
        let mut e = display_code_chars(&v);
        extend_str(&mut e, " is reserved and cannot be mapped");
        return Err(string_of(&e));
    }
    if mods.super_key {
        return Err(
            String::from_str("Windows/Super key shortcuts are reserved for the operating system"),
        );
    }
    if mods.alt && chars_eq_str(&v, "F4") {
        return Err(String::from_str("Alt+F4 is reserved for closing windows"));
    }
    if count == 0 && is_printable_key(code) {
        return Err(String::from_str("Single printable keys are not allowed as global shortcuts"));
    }
    if mods.control && !mods.shift && !mods.alt && !mods.super_key && is_common_editing_key(code) {
        let mut e = chars_of("Ctrl+");
        let shown = display_code_chars(&v);
        extend_chars(&mut e, &shown);
        extend_str(&mut e, " is reserved for common app editing commands");
        return Err(string_of(&e));
    }
    Ok(())
}

// ------------------------------------------------------------ keybind lists

/// Whether an action is one of the five bindable actions.
pub open spec fn known_action(action: Seq<char>) -> bool {
    ||| action == TOGGLE_OVERLAY_ACTION@
    ||| action == GAME_CHAT_OVERLAY_ACTION@
    ||| action == GAME_CHAT_SCREENSHOT_CAPTURE_ACTION@
    ||| action == GAME_BUILD_GUIDE_OVERLAY_ACTION@
    ||| action == RECORD_SMOKING_EVENT_ACTION@
}

/// What the keyboard-shortcut parser made of one binding: the canonical
/// text of its shortcut, and the policy verdict on that canonical text.
/// Mouse shortcuts are read without the parser, so for them these values
/// are only consulted if the canonical text no longer names a mouse button.
#[derive(Debug)]
pub struct KeyboardCheck {
    pub normalized: Result<String, String>,
    pub policy: Result<(), String>,
}

pub type KeyboardCheckView = (Result<Seq<char>, Seq<char>>, Result<(), Seq<char>>);

impl View for KeyboardCheck {
    type V = KeyboardCheckView;

    open spec fn view(&self) -> KeyboardCheckView {
        (
            match self.normalized {
                Ok(n) => Ok(n@),
                Err(e) => Err(e@),
            },
            match self.policy {
                Ok(()) => Ok(()),
                Err(e) => Err(e@),
            },
        )
    }
}

pub open spec fn check_views(v: Seq<KeyboardCheck>) -> Seq<KeyboardCheckView> {
    v.map_values(|c: KeyboardCheck| c@)
}

/// One binding checked on its own: an error, nothing (no shortcut bound),
/// or the canonical text of its shortcut.
pub open spec fn keybind_outcome(kb: KeybindView, check: KeyboardCheckView) -> Result<
    Option<Seq<char>>,
    Seq<char>,
> {
    if !known_action(kb.0) {
        Err("Unknown keybind function: "@ + kb.0)
    } else if kb.2.len() > 3 {
        Err(kb.1 + " can have at most three keybinds"@)
    } else {
        let s = shortcut_text(kb.2);
        if trim(s).len() == 0 {
            Ok(None)
        } else {
            let normalized = if mouse_text(s) {
                mouse_normalized(s)
            } else {
                check.0
            };
            match normalized {
                Err(e) => Err(e),
                Ok(n) => {
                    let policy = if mouse_text(n) {
                        mouse_policy(n)
                    } else {
                        check.1
                    };
                    match policy {
                        Err(e) => Err(e),
                        Ok(()) => Ok(Some(n)),
                    }
                },
            }
        }
    }
}

/// Checks bindings `0..n` in order: the first error, or the lower-cased
/// shortcuts seen so far. A shortcut seen twice is an error.
pub open spec fn validate_scan(
    kbs: Seq<KeybindView>,
    checks: Seq<KeyboardCheckView>,
    n: int,
) -> Result<Seq<Seq<char>>, Seq<char>>
    decreases n,
{
    if n <= 0 {
        Ok(seq![])
    } else {
        match validate_scan(kbs, checks, n - 1) {
            Err(e) => Err(e),
            Ok(seen) => match keybind_outcome(kbs[n - 1], checks[n - 1]) {
                Err(e) => Err(e),
                Ok(None) => Ok(seen),
                Ok(Some(n)) => {
                    let low = unicode_lowercase(n);
                    if seen.contains(low) {
                        Err("Duplicate keybind is not allowed: "@ + n)
                    } else {
                        Ok(seen.push(low))
                    }
                },
            },
        }
    }
}

pub open spec fn keybinds_verdict(kbs: Seq<KeybindView>, checks: Seq<KeyboardCheckView>) -> Result<
    (),
    Seq<char>,
> {
    match validate_scan(kbs, checks, kbs.len() as int) {
        Ok(_) => Ok(()),
        Err(e) => Err(e),
    }
}

pub fn keybind_outcome_exec(kb: &KeybindConfig, check: &KeyboardCheck) -> (r: Result<
    Option<Vec<char>>,
    Vec<char>,
>)
    ensures
        match r {
            Ok(Some(n)) => keybind_outcome(kb@, check@) == Ok::<Option<Seq<char>>, Seq<char>>(
                Some(n@),
            ),
            Ok(None) => keybind_outcome(kb@, check@) == Ok::<Option<Seq<char>>, Seq<char>>(None),
            Err(e) => keybind_outcome(kb@, check@) == Err::<Option<Seq<char>>, Seq<char>>(e@),
        },
{
    let action = chars_of(kb.action.as_str());
    if !(chars_eq_str(&action, TOGGLE_OVERLAY_ACTION) || chars_eq_str(&action, GAME_CHAT_OVERLAY_ACTION)
        || chars_eq_str(&action, GAME_CHAT_SCREENSHOT_CAPTURE_ACTION) || chars_eq_str(
        &action,
        GAME_BUILD_GUIDE_OVERLAY_ACTION,
    ) || chars_eq_str(&action, RECORD_SMOKING_EVENT_ACTION)) {
        let mut e = chars_of("Unknown keybind function: ");
        extend_chars(&mut e, &action);
        return Err(e);
    }
    if kb.keys.len() > 3 {
        let mut e = chars_of(kb.label.as_str());
        extend_str(&mut e, " can have at most three keybinds");
        return Err(e);
    }
    assert(strings(kb.keys@).len() == kb.keys@.len());
    let keys = to_char_vecs(&kb.keys);
    let s = shortcut_from_key_parts_chars(&keys);
    if trim_chars(&s).len() == 0 {
        return Ok(None);
    }
    let normalized = if is_mouse_shortcut_text_chars(&s) {
        normalize_mouse_shortcut_text_chars(&s)
    } else {
        match &check.normalized {
            Ok(n) => Ok(chars_of(n.as_str())),
            Err(e) => Err(chars_of(e.as_str())),
        }
    };
    let n = match normalized {
        Ok(n) => n,
        Err(e) => return Err(e),
    };
    if is_mouse_shortcut_text_chars(&n) {
        match validate_mouse_shortcut_policy_chars(&n) {
            Ok(()) => {},
            Err(e) => return Err(e),
        }
    } else {
        match &check.policy {
            Ok(()) => {},
            Err(e) => return Err(chars_of(e.as_str())),
        }
    }
    Ok(Some(n))
}

/// Checks a list of bindings: every action known, at most three key names
/// each, every bound shortcut well-formed and allowed, and no shortcut bound
/// twice (ignoring case). `checks[i]` is what the shortcut parser said of
/// binding `i`.
pub fn validate_keybinds(keybinds: &Vec<KeybindConfig>, checks: &Vec<KeyboardCheck>) -> (r: Result<
    (),
    String,
>)
    requires
        checks.len() == keybinds.len(),
    ensures
        match r {
            Ok(()) => keybinds_verdict(keybind_views(keybinds@), check_views(checks@)) == Ok::<
                (),
                Seq<char>,
            >(()),
            Err(e) => keybinds_verdict(keybind_views(keybinds@), check_views(checks@)) == Err::<
                (),
                Seq<char>,
            >(e@),
        },
{
    let ghost kv = keybind_views(keybinds@);
    let ghost cv = check_views(checks@);
    let mut seen: Vec<Vec<char>> = Vec::new();
    assert(views(seen@) =~= Seq::<Seq<char>>::empty());
    let mut i: usize = 0;
    while i < keybinds.len()
        invariant
            i <= keybinds.len() == checks.len(),
            kv == keybind_views(keybinds@),
            cv == check_views(checks@),
            validate_scan(kv, cv, i as int) == Ok::<Seq<Seq<char>>, Seq<char>>(views(seen@)),
        decreases keybinds.len() - i,
    {
        assert(kv[i as int] == keybinds@[i as int]@);
        assert(cv[i as int] == checks@[i as int]@);
        match keybind_outcome_exec(&keybinds[i], &checks[i]) {
            Err(e) => {
                proof {
                    lemma_validate_scan_error(kv, cv, i as int + 1, kv.len() as int);
                }
                return Err(string_of(&e));
            },
            Ok(None) => {},
            Ok(Some(n)) => {
                let low = to_lowercase_chars(&n);
                let mut j: usize = 0;
                while j < seen.len()
                    invariant
                        j <= seen.len(),
                        i < keybinds.len() == checks.len(),
                        kv == keybind_views(keybinds@),
                        cv == check_views(checks@),
                        validate_scan(kv, cv, i as int) == Ok::<Seq<Seq<char>>, Seq<char>>(
                            views(seen@),
                        ),
                        keybind_outcome(kv[i as int], cv[i as int]) == Ok::<
                            Option<Seq<char>>,
                            Seq<char>,
                        >(Some(n@)),
                        low@ == unicode_lowercase(n@),
                        forall|k: int| 0 <= k < j ==> views(seen@)[k] != low@,
                    decreases seen.len() - j,
                {
                    assert(views(seen@)[j as int] == seen@[j as int]@);
                    if chars_eq(&seen[j], &low) {
                        let mut e = chars_of("Duplicate keybind is not allowed: ");
                        extend_chars(&mut e, &n);
                        proof {
                            assert(views(seen@).contains(low@));
                            lemma_validate_scan_error(kv, cv, i as int + 1, kv.len() as int);
                        }
                        return Err(string_of(&e));
                    }
                    j = j + 1;
                }
                let ghost prev = seen@;
                seen.push(low);
                assert(views(seen@) =~= views(prev).push(low@));
            },
        }
        i = i + 1;
    }
    Ok(())
}

/// Once bindings `0..n` hold an error, every longer prefix reports it.
pub proof fn lemma_validate_scan_error(
    kbs: Seq<KeybindView>,
    checks: Seq<KeyboardCheckView>,
    n: int,
    m: int,
)
    requires
        0 <= n <= m,
        validate_scan(kbs, checks, n) is Err,
    ensures
        validate_scan(kbs, checks, m) == validate_scan(kbs, checks, n),
    decreases m - n,
{
    if m > n {
        lemma_validate_scan_error(kbs, checks, n, m - 1);
    }
}

/// The index of the first binding for `action`, searching from `i`.
pub open spec fn find_action(kbs: Seq<KeybindView>, action: Seq<char>, i: int) -> Option<int>
    decreases kbs.len() - i,
{
    if i < 0 || i >= kbs.len() {
        None
    } else if kbs[i].0 == action {
        Some(i)
    } else {
        find_action(kbs, action, i + 1)
    }
}

pub proof fn lemma_find_action(kbs: Seq<KeybindView>, action: Seq<char>, i: int)
    requires
        0 <= i,
    ensures
        find_action(kbs, action, i) matches Some(k) ==> i <= k < kbs.len() && kbs[k].0 == action,
    decreases kbs.len() - i,
{
    if i < kbs.len() && kbs[i].0 != action {
        lemma_find_action(kbs, action, i + 1);
    }
}

/// A default binding with the user's keys for its action, if the user set
/// any: action and label stay the default's.
pub open spec fn merged_keybind(default: KeybindView, keybinds: Seq<KeybindView>) -> KeybindView {
    match find_action(keybinds, default.0, 0) {
        Some(i) => (default.0, default.1, key_parts(keybinds[i].2)),
        None => default,
    }
}

pub open spec fn merged_keybinds(keybinds: Seq<KeybindView>) -> Seq<KeybindView> {
    default_keybind_views().map_values(|d: KeybindView| merged_keybind(d, keybinds))
}

fn find_action_exec(keybinds: &Vec<KeybindConfig>, action: &Vec<char>) -> (r: Option<usize>)
    ensures
        match r {
            Some(i) => find_action(keybind_views(keybinds@), action@, 0) == Some(i as int) && i
                < keybinds.len(),
            None => find_action(keybind_views(keybinds@), action@, 0) is None,
        },
{
    let ghost kv = keybind_views(keybinds@);
    let mut i: usize = 0;
    while i < keybinds.len()
        invariant
            i <= keybinds.len(),
            kv == keybind_views(keybinds@),
            find_action(kv, action@, 0) == find_action(kv, action@, i as int),
        decreases keybinds.len() - i,
    {
        assert(kv[i as int] == keybinds@[i as int]@);
        let a = chars_of(keybinds[i].action.as_str());
        if chars_eq(&a, action) {
            return Some(i);
        }
        i = i + 1;
    }
    None
}

fn clone_keybind(kb: &KeybindConfig) -> (r: KeybindConfig)
    ensures
        r@ == kb@,
{
    let keys = to_char_vecs(&kb.keys);
    let r = KeybindConfig {
        action: string_of(&chars_of(kb.action.as_str())),
        label: string_of(&chars_of(kb.label.as_str())),
        keys: to_strings(&keys),
    };
    r
}

/// The default bindings, each taking the keys that `keybinds` gives its
/// action (normalised), so that unknown actions are dropped and missing
/// ones restored.
pub fn merge_with_defaults(keybinds: Vec<KeybindConfig>) -> (r: Vec<KeybindConfig>)
    ensures
        keybind_views(r@) == merged_keybinds(keybind_views(keybinds@)),
{
    let defaults = default_keybinds();
    let ghost dv = keybind_views(defaults@);
    let ghost kv = keybind_views(keybinds@);
    let mut out: Vec<KeybindConfig> = Vec::new();
    let mut i: usize = 0;
    while i < defaults.len()
        invariant
            i <= defaults.len(),
            dv == keybind_views(defaults@),
            dv == default_keybind_views(),
            kv == keybind_views(keybinds@),
            keybind_views(out@) == dv.take(i as int).map_values(
                |d: KeybindView| merged_keybind(d, kv),
            ),
        decreases defaults.len() - i,
    {
        let d = &defaults[i];
        assert(dv[i as int] == d@);
        let action = chars_of(d.action.as_str());
        let item = match find_action_exec(&keybinds, &action) {
            Some(k) => {
                assert(kv[k as int] == keybinds@[k as int]@);
                KeybindConfig {
                    action: string_of(&action),
                    label: string_of(&chars_of(d.label.as_str())),
                    keys: normalize_key_parts(&keybinds[k].keys),
                }
            },
            None => clone_keybind(d),
        };
        let ghost prev = out@;
        out.push(item);
        assert(keybind_views(out@) =~= keybind_views(prev).push(item@));
        i = i + 1;
        assert(dv.take(i as int).map_values(|d: KeybindView| merged_keybind(d, kv)) =~= dv.take(
            i - 1,
        ).map_values(|d: KeybindView| merged_keybind(d, kv)).push(merged_keybind(dv[i - 1], kv)));
    }
    assert(dv.take(defaults.len() as int) =~= dv);
    out
}

/// Each binding with its key names normalised.
pub open spec fn normalized_keybinds(keybinds: Seq<KeybindView>) -> Seq<KeybindView> {
    keybinds.map_values(|k: KeybindView| (k.0, k.1, key_parts(k.2)))
}

/// Normalises the key names of every binding; this never fails.
pub fn normalize_keybinds(keybinds: Vec<KeybindConfig>) -> (r: Result<Vec<KeybindConfig>, String>)
    ensures
        r matches Ok(v) && keybind_views(v@) == normalized_keybinds(keybind_views(keybinds@)),
{
    let ghost kv = keybind_views(keybinds@);
    let mut out: Vec<KeybindConfig> = Vec::new();
    let mut i: usize = 0;
    while i < keybinds.len()
        invariant
            i <= keybinds.len(),
            kv == keybind_views(keybinds@),
            keybind_views(out@) == normalized_keybinds(kv.take(i as int)),
        decreases keybinds.len() - i,
    {
        let k = &keybinds[i];
        assert(kv[i as int] == k@);
        let item = KeybindConfig {
            action: string_of(&chars_of(k.action.as_str())),
            label: string_of(&chars_of(k.label.as_str())),
            keys: normalize_key_parts(&k.keys),
        };
        let ghost prev = out@;
        out.push(item);
        assert(keybind_views(out@) =~= keybind_views(prev).push(item@));
        i = i + 1;
        assert(normalized_keybinds(kv.take(i as int)) =~= normalized_keybinds(kv.take(i - 1)).push(
            (kv[i - 1].0, kv[i - 1].1, key_parts(kv[i - 1].2)),
        ));
    }
    assert(kv.take(keybinds.len() as int) =~= kv);
    Ok(out)
}

/// Merging with the defaults always gives the default actions, in the
/// default order, under the default labels, with at most three key names
/// each: whatever the stored bindings held.
pub proof fn merged_keybinds_keep_default_actions(keybinds: Seq<KeybindView>)
    ensures
        merged_keybinds(keybinds).len() == default_keybind_views().len(),
        forall|i: int|
            0 <= i < default_keybind_views().len() ==> (#[trigger] merged_keybinds(keybinds)[i]).0
                == default_keybind_views()[i].0 && merged_keybinds(keybinds)[i].1
                == default_keybind_views()[i].1 && merged_keybinds(keybinds)[i].2.len() <= 3,
{
    assert forall|i: int| 0 <= i < default_keybind_views().len() implies (
    #[trigger] merged_keybinds(keybinds)[i]).0 == default_keybind_views()[i].0 && merged_keybinds(
        keybinds,
    )[i].1 == default_keybind_views()[i].1 && merged_keybinds(keybinds)[i].2.len() <= 3 by {
        lemma_find_action(keybinds, default_keybind_views()[i].0, 0);
    }
}

} // verus!
