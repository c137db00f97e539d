//! The launcher's closed set of product targets, and its window kinds.
use crate::text::{
    chars_eq_str, chars_of, extend_str, is_ws, lemma_trim_fixed, lower_ascii, lower_ascii_chars,
    owned, slice_of, starts_with, string_of, trim, trim_chars,
};
use vstd::prelude::*;

verus! {

#[derive(Clone, Copy, Debug, PartialEq, Eq, Structural)]
pub enum ProductKind {
    Media,
    Gaming,
    Retirement,
}

impl ProductKind {
    pub open spec fn spec_key(self) -> Seq<char> {
        match self {
            ProductKind::Media => "media"@,
            ProductKind::Gaming => "gaming"@,
            ProductKind::Retirement => "retirement"@,
        }
    }

    /// The product a launch argument names: the trimmed, ASCII lower-cased
    /// text must be one of the three keys.
    pub open spec fn spec_parse(value: Seq<char>) -> Option<ProductKind> {
        let k = lower_ascii(trim(value));
        if k == "media"@ {
            Some(ProductKind::Media)
        } else if k == "gaming"@ {
            Some(ProductKind::Gaming)
        } else if k == "retirement"@ {
            Some(ProductKind::Retirement)
        } else {
            None
        }
    }

    pub fn key(self) -> (r: &'static str)
        ensures
            r@ == self.spec_key(),
    {
        match self {
            ProductKind::Media => "media",
            ProductKind::Gaming => "gaming",
            ProductKind::Retirement => "retirement",
        }
    }

    pub open spec fn spec_name(self) -> Seq<char> {
        match self {
            ProductKind::Media => "Overlay Forge Media"@,
            ProductKind::Gaming => "Overlay Forge Gaming"@,
            ProductKind::Retirement => "Overlay Forge Retirement"@,
        }
    }

    pub fn name(self) -> (r: &'static str)
        ensures
            r@ == self.spec_name(),
    {
        match self {
            ProductKind::Media => "Overlay Forge Media",
            ProductKind::Gaming => "Overlay Forge Gaming",
            ProductKind::Retirement => "Overlay Forge Retirement",
        }
    }

    pub fn executable(self) -> (r: &'static str)
        ensures
            r@ == match self {
                ProductKind::Media => "overlay-forge-media.exe"@,
                ProductKind::Gaming => "overlay-forge-gaming.exe"@,
                ProductKind::Retirement => "overlay-forge-retirement.exe"@,
            },
    {
        match self {
            ProductKind::Media => "overlay-forge-media.exe",
            ProductKind::Gaming => "overlay-forge-gaming.exe",
            ProductKind::Retirement => "overlay-forge-retirement.exe",
        }
    }

    pub fn parse(value: &str) -> (r: Option<ProductKind>)
        ensures
            r == ProductKind::spec_parse(value@),
    {
        let v = chars_of(value);
        let t = trim_chars(&v);
        let k = lower_ascii_chars(&t);
        if chars_eq_str(&k, "media") {
            Some(ProductKind::Media)
        } else if chars_eq_str(&k, "gaming") {
            Some(ProductKind::Gaming)
        } else if chars_eq_str(&k, "retirement") {
            Some(ProductKind::Retirement)
        } else {
            None
        }
    }
}

/// The products in the order the picker lists them.
pub fn products() -> (r: Vec<ProductKind>)
    ensures
        r@ == seq![ProductKind::Media, ProductKind::Gaming, ProductKind::Retirement],
{
    let mut r = Vec::new();
    r.push(ProductKind::Media);
    r.push(ProductKind::Gaming);
    r.push(ProductKind::Retirement);
    r
}

/// Every product's key parses back to that product, so the key is the
/// stable identifier that launch requests and the saved last product use.
pub proof fn product_key_round_trip(kind: ProductKind)
    ensures
        ProductKind::spec_parse(kind.spec_key()) == Some(kind),
{
    reveal_strlit("media");
    reveal_strlit("gaming");
    reveal_strlit("retirement");
    let k = kind.spec_key();
    assert(k.len() > 0 && !is_ws(k[0]) && !is_ws(k.last()));
    lemma_trim_fixed(k);
    assert(lower_ascii(k) =~= k);
}

#[derive(Clone, Debug)]
pub struct ProductRecord {
    pub key: String,
    pub name: String,
    pub available: bool,
    pub launch_path: String,
}

#[derive(Clone, Copy, Debug, PartialEq, Eq, Structural)]
pub enum WindowKind {
    Main,
    GameChat,
    GameBuildGuide,
}

impl WindowKind {
    pub fn label(self) -> (r: &'static str)
        ensures
            r@ == match self {
                WindowKind::Main => "main"@,
                WindowKind::GameChat => "game-chat"@,
                WindowKind::GameBuildGuide => "game-build-guide"@,
            },
    {
        match self {
            WindowKind::Main => "main",
            WindowKind::GameChat => "game-chat",
            WindowKind::GameBuildGuide => "game-build-guide",
        }
    }

    /// The chat and build-guide overlays are standalone windows; the main
    /// window is not.
    pub fn is_standalone(self) -> (r: bool)
        ensures
            r == (self != WindowKind::Main),
    {
        match self {
            WindowKind::GameChat | WindowKind::GameBuildGuide => true,
            WindowKind::Main => false,
        }
    }

    /// How a window behaves at run time: standalone windows stay on top and
    /// come back fully opaque; the main window hides when it loses focus and
    /// comes back at the capture opacity.
    pub fn runtime_config(self) -> (r: BaseWindowConfig)
        ensures
            r.kind == self,
            r.always_on_top == (self != WindowKind::Main),
            r.hide_on_focus_loss == (self == WindowKind::Main),
            r.restore_opacity == (if self == WindowKind::Main {
                RestoreOpacity::MainCapture
            } else {
                RestoreOpacity::Active
            }),
    {
        let standalone = self.is_standalone();
        BaseWindowConfig {
            kind: self,
            always_on_top: standalone,
            hide_on_focus_loss: !standalone,
            restore_opacity: if standalone {
                RestoreOpacity::Active
            } else {
                RestoreOpacity::MainCapture
            },
        }
    }
}

/// Which opacity a window is restored to: fully opaque, or the main
/// window's capture opacity (the values themselves are real numbers and
/// stay with the window layer).
#[derive(Clone, Copy, Debug, PartialEq, Eq, Structural)]
pub enum RestoreOpacity {
    Active,
    MainCapture,
}

#[derive(Clone, Copy, Debug)]
pub struct BaseWindowConfig {
    pub kind: WindowKind,
    pub always_on_top: bool,
    pub hide_on_focus_loss: bool,
    pub restore_opacity: RestoreOpacity,
}


// ------------------------------------------------------------ launching

/// `s` without the leading run of copies of `p`, as `trim_start_matches`
/// gives it for a non-empty `p`.
pub open spec fn strip_leading(s: Seq<char>, p: Seq<char>) -> Seq<char>
    decreases s.len(),
{
    if p.len() > 0 && starts_with(s, p) {
        strip_leading(s.skip(p.len() as int), p)
    } else {
        s
    }
}

pub fn strip_leading_str(s: &str, p: &str) -> (r: Vec<char>)
    requires
        p@.len() > 0,
    ensures
        r@ == strip_leading(s@, p@),
{
    let v = chars_of(s);
    let pv = chars_of(p);
    let mut i: usize = 0;
    assert(v@.skip(0) =~= v@);
    while crate::text::matches_at_exec(&v, &pv, i)
        invariant
            i <= v.len(),
            pv@ == p@,
            pv@.len() > 0,
            strip_leading(v@, pv@) == strip_leading(v@.skip(i as int), pv@),
        decreases v.len() - i,
    {
        assert(v@.skip(i as int).take(pv@.len() as int) =~= v@.subrange(i as int, i + pv@.len()));
        assert(v@.skip(i as int).skip(pv@.len() as int) =~= v@.skip(i + pv@.len()));
        i = i + pv.len();
    }
    proof {
        let rest = v@.skip(i as int);
        if starts_with(rest, pv@) {
            assert(rest.take(pv@.len() as int) =~= v@.subrange(i as int, i + pv@.len()));
        }
    }
    let len = v.len();
    let r = slice_of(&v, i, len);
    assert(r@ =~= v@.skip(i as int));
    r
}

/// The product that launch arguments ask for: the first argument that,
/// without its leading `--product=` prefixes, parses as a product.
pub open spec fn requested_by(args: Seq<Seq<char>>) -> Option<ProductKind>
    decreases args.len(),
{
    if args.len() == 0 {
        None
    } else {
        match ProductKind::spec_parse(strip_leading(args[0], "--product="@)) {
            Some(k) => Some(k),
            None => requested_by(args.drop_first()),
        }
    }
}

/// The product the launch arguments (without the program name) ask for.
pub fn requested_product(args: &Vec<String>) -> (r: Option<ProductKind>)
    ensures
        r == requested_by(args@.map_values(|a: String| a@)),
{
    proof {
        reveal_strlit("--product=");
    }
    let ghost all = args@.map_values(|a: String| a@);
    let mut i: usize = 0;
    assert(all.skip(0) =~= all);
    while i < args.len()
        invariant
            i <= args.len(),
            all == args@.map_values(|a: String| a@),
            requested_by(all) == requested_by(all.skip(i as int)),
        decreases args.len() - i,
    {
        proof {
            reveal_strlit("--product=");
        }
        let stripped = strip_leading_str(args[i].as_str(), "--product=");
        let kind = ProductKind::parse(string_of(&stripped).as_str());
        assert(all.skip(i as int)[0] == args[i as int]@);
        if kind.is_some() {
            return kind;
        }
        assert(all.skip(i as int).drop_first() =~= all.skip(i + 1));
        i = i + 1;
    }
    assert(all.skip(i as int) =~= Seq::<Seq<char>>::empty());
    None
}

/// Whether `kind` is among the installed products.
fn is_installed(installed: &[ProductKind], kind: ProductKind) -> (r: bool)
    ensures
        r == installed@.contains(kind),
{
    let mut i: usize = 0;
    while i < installed.len()
        invariant
            i <= installed@.len(),
            forall|j: int| 0 <= j < i ==> installed@[j] != kind,
        decreases installed@.len() - i,
    {
        if installed[i] == kind {
            assert(installed@[i as int] == kind);
            return true;
        }
        i = i + 1;
    }
    false
}

/// The saved last product, when its key parses.
pub open spec fn saved_product(last_product: Option<Seq<char>>) -> Option<ProductKind> {
    match last_product {
        Some(key) => ProductKind::spec_parse(key),
        None => None,
    }
}

/// Where an automatic launch goes: the requested product when it is
/// installed, else the saved last product when its key parses and it is
/// installed; `None` means no valid target, and the picker is shown.
pub open spec fn spec_launch_target(
    requested: Option<ProductKind>,
    last_product: Option<Seq<char>>,
    installed: Seq<ProductKind>,
) -> Option<ProductKind> {
    if requested matches Some(k) && installed.contains(k) {
        requested
    } else if saved_product(last_product) matches Some(k) && installed.contains(k) {
        saved_product(last_product)
    } else {
        None
    }
}

/// Where an automatic launch goes, given the products that are installed.
pub fn launch_target(
    requested: Option<ProductKind>,
    last_product: Option<String>,
    installed: &[ProductKind],
) -> (r: Option<ProductKind>)
    ensures
        r == spec_launch_target(
            requested,
            match last_product {
                Some(key) => Some(key@),
                None => None,
            },
            installed@,
        ),
{
    if let Some(k) = requested {
        if is_installed(installed, k) {
            return Some(k);
        }
    }
    match last_product {
        Some(key) => match ProductKind::parse(key.as_str()) {
            Some(k) => if is_installed(installed, k) {
                Some(k)
            } else {
                None
            },
            None => None,
        },
        None => None,
    }
}

/// A launch only ever goes to an installed product, and a requested
/// product that is installed always wins.
pub proof fn launch_goes_to_installed_products(
    requested: Option<ProductKind>,
    last_product: Option<Seq<char>>,
    installed: Seq<ProductKind>,
)
    ensures
        spec_launch_target(requested, last_product, installed) matches Some(k) ==> installed.contains(
            k,
        ),
        requested matches Some(k) && installed.contains(k) ==> spec_launch_target(
            requested,
            last_product,
            installed,
        ) == requested,
{
}

/// The product a launch request names, or the error for an unknown key.
pub fn product_for_key(product_key: &str) -> (r: Result<ProductKind, String>)
    ensures
        match ProductKind::spec_parse(product_key@) {
            Some(k) => r == Ok::<ProductKind, String>(k),
            None => r matches Err(e) && e@ == "Unknown product target."@,
        },
{
    match ProductKind::parse(product_key) {
        Some(k) => Ok(k),
        None => Err(owned("Unknown product target.")),
    }
}

/// The error when a product has no executable to launch.
pub fn not_installed_message(kind: ProductKind) -> (r: String)
    ensures
        r@ == kind.spec_name() + " is not installed or built in its sibling development repository."@,
{
    let mut m = chars_of(kind.name());
    extend_str(&mut m, " is not installed or built in its sibling development repository.");
    string_of(&m)
}

/// The error when starting a product's executable failed.
pub fn launch_failed_message(kind: ProductKind, error: &str) -> (r: String)
    ensures
        r@ == "Could not launch "@ + kind.spec_name() + ": "@ + error@,
{
    let mut m = chars_of("Could not launch ");
    extend_str(&mut m, kind.name());
    extend_str(&mut m, ": ");
    extend_str(&mut m, error);
    string_of(&m)
}

/// The picker's record of a product: available when an executable was
/// found, with its path (empty otherwise).
pub fn product_record(kind: ProductKind, launch_path: Option<String>) -> (r: ProductRecord)
    ensures
        r.key@ == kind.spec_key(),
        r.name@ == kind.spec_name(),
        r.available == launch_path is Some,
        r.launch_path@ == match launch_path {
            Some(p) => p@,
            None => seq![],
        },
{
    let available = launch_path.is_some();
    ProductRecord {
        key: owned(kind.key()),
        name: owned(kind.name()),
        available,
        launch_path: match launch_path {
            Some(p) => p,
            None => String::new(),
        },
    }
}

} // verus!
