//! The GearBlocks scene context: how a scene part is sorted into a vehicle
//! system and given a purpose, and the fixed texts of the context document.
use crate::database::AppDatabase;
use crate::text::{chars_of, contains, contains_str, extend_str, join, join_chars, string_of, trim, trim_chars, views};
use vstd::prelude::*;

verus! {

pub struct GearBlocksSceneContextService<'a> {
    pub database: &'a AppDatabase,
}

impl<'a> GearBlocksSceneContextService<'a> {
    pub fn new(database: &'a AppDatabase) -> (r: GearBlocksSceneContextService<'a>)
        ensures
            r.database == database,
    {
        GearBlocksSceneContextService { database }
    }
}

/// The vehicle system a part belongs to, judged from its lower-cased
/// descriptive text, its lower-cased category and its lower-cased behaviour
/// text; the first matching rule wins.
pub open spec fn part_system(text: Seq<char>, category: Seq<char>, behaviour_text: Seq<char>) -> Seq<
    char,
> {
    if contains(text, "engine"@) || contains(text, "crank"@) || contains(text, "cylinder"@)
        || contains(text, "combustion"@) || contains(behaviour_text, "engine"@) {
        "engine and powertrain"@
    } else if contains(text, "gear"@) || contains(text, "differential"@) || contains(text, "axle"@)
        || contains(text, "shaft"@) || contains(text, "clutch"@) || contains(text, "cv joint"@) {
        "drivetrain"@
    } else if contains(text, "wheel"@) || contains(text, "tire"@) || contains(text, "tyre"@) {
        "wheels and tires"@
    } else if contains(text, "steer"@) || contains(text, "rack"@) {
        "steering"@
    } else if contains(text, "spring"@) || contains(text, "damper"@) || contains(text, "suspension"@)
        || contains(text, "control arm"@) {
        "suspension"@
    } else if contains(text, "brake"@) {
        "brakes"@
    } else if contains(text, "button"@) || contains(text, "switch"@) || contains(text, "sensor"@)
        || contains(text, "logic"@) || contains(text, "controller"@) {
        "controls and data"@
    } else if contains(text, "beam"@) || contains(text, "plate"@) || contains(text, "bracket"@)
        || contains(text, "frame"@) || contains(text, "panel"@) || contains(text, "bar"@) || contains(
        text,
        "strut"@,
    ) {
        "structural frame"@
    } else if contains(category, "connector"@) || contains(text, "connector"@) || contains(
        text,
        "mount"@,
    ) {
        "mounts and connectors"@
    } else if contains(category, "body"@) || contains(text, "body"@) || contains(text, "fender"@)
        || contains(text, "panel"@) {
        "bodywork"@
    } else {
        "unknown or miscellaneous"@
    }
}

/// Sorts a part into its vehicle system. `behaviour_text` is the part's
/// behaviour names joined by spaces and ASCII lower-cased.
pub fn classify_part_system(text: &str, category: &str, behaviour_text: &str) -> (r: &'static str)
    ensures
        r@ == part_system(text@, category@, behaviour_text@),
{
    let t = chars_of(text);
    let c = chars_of(category);
    let b = chars_of(behaviour_text);
    if contains_str(&t, "engine") || contains_str(&t, "crank") || contains_str(&t, "cylinder")
        || contains_str(&t, "combustion") || contains_str(&b, "engine") {
        "engine and powertrain"
    } else if contains_str(&t, "gear") || contains_str(&t, "differential") || contains_str(
        &t,
        "axle",
    ) || contains_str(&t, "shaft") || contains_str(&t, "clutch") || contains_str(&t, "cv joint") {
        "drivetrain"
    } else if contains_str(&t, "wheel") || contains_str(&t, "tire") || contains_str(&t, "tyre") {
        "wheels and tires"
    } else if contains_str(&t, "steer") || contains_str(&t, "rack") {
        "steering"
    } else if contains_str(&t, "spring") || contains_str(&t, "damper") || contains_str(
        &t,
        "suspension",
    ) || contains_str(&t, "control arm") {
        "suspension"
    } else if contains_str(&t, "brake") {
        "brakes"
    } else if contains_str(&t, "button") || contains_str(&t, "switch") || contains_str(&t, "sensor")
        || contains_str(&t, "logic") || contains_str(&t, "controller") {
        "controls and data"
    } else if contains_str(&t, "beam") || contains_str(&t, "plate") || contains_str(&t, "bracket")
        || contains_str(&t, "frame") || contains_str(&t, "panel") || contains_str(&t, "bar")
        || contains_str(&t, "strut") {
        "structural frame"
    } else if contains_str(&c, "connector") || contains_str(&t, "connector") || contains_str(
        &t,
        "mount",
    ) {
        "mounts and connectors"
    } else if contains_str(&c, "body") || contains_str(&t, "body") || contains_str(&t, "fender")
        || contains_str(&t, "panel") {
        "bodywork"
    } else {
        "unknown or miscellaneous"
    }
}

/// What a part does, judged from its system and its lower-cased text and
/// behaviour text; the first matching rule wins.
pub open spec fn part_role(system: Seq<char>, text: Seq<char>, behaviour_text: Seq<char>) -> Seq<
    char,
> {
    if contains(behaviour_text, "spring"@) || contains(text, "coil-over"@) || contains(
        text,
        "damper"@,
    ) {
        "spring/damper element controlling suspension travel"@
    } else if contains(text, "control arm"@) || contains(behaviour_text, "ball"@) {
        "articulated suspension locating member"@
    } else if contains(text, "differential"@) {
        "differential gear element distributing drive torque"@
    } else if contains(text, "clutch"@) {
        "engageable drivetrain coupling or clutch gear"@
    } else if contains(text, "brake"@) {
        "braking element"@
    } else if contains(text, "gear"@) {
        "gear train element transmitting or changing rotation"@
    } else if contains(text, "cv joint"@) {
        "constant-velocity joint or axle segment"@
    } else if contains(text, "axle"@) || contains(text, "shaft"@) {
        "rotating shaft or axle segment"@
    } else if contains(text, "crank"@) || contains(behaviour_text, "engine"@) {
        "engine crank or combustion powertrain element"@
    } else if contains(text, "wheel"@) || contains(text, "tire"@) || contains(text, "tyre"@) {
        "ground contact rolling element"@
    } else if contains(text, "steering"@) || contains(text, "rack"@) {
        "steering input or linkage element"@
    } else if system == "structural frame"@ {
        "rigid welded structural member"@
    } else if system == "mounts and connectors"@ {
        "mounting connector or rigid attachment element"@
    } else if system == "controls and data"@ {
        "control, signal, or data-bearing element"@
    } else {
        "part role inferred from category and behaviours"@
    }
}

pub fn part_purpose(system: &str, text: &str, behaviour_text: &str) -> (r: &'static str)
    ensures
        r@ == part_role(system@, text@, behaviour_text@),
{
    let s = chars_of(system);
    let t = chars_of(text);
    let b = chars_of(behaviour_text);
    if contains_str(&b, "spring") || contains_str(&t, "coil-over") || contains_str(&t, "damper") {
        "spring/damper element controlling suspension travel"
    } else if contains_str(&t, "control arm") || contains_str(&b, "ball") {
        "articulated suspension locating member"
    } else if contains_str(&t, "differential") {
        "differential gear element distributing drive torque"
    } else if contains_str(&t, "clutch") {
        "engageable drivetrain coupling or clutch gear"
    } else if contains_str(&t, "brake") {
        "braking element"
    } else if contains_str(&t, "gear") {
        "gear train element transmitting or changing rotation"
    } else if contains_str(&t, "cv joint") {
        "constant-velocity joint or axle segment"
    } else if contains_str(&t, "axle") || contains_str(&t, "shaft") {
        "rotating shaft or axle segment"
    } else if contains_str(&t, "crank") || contains_str(&b, "engine") {
        "engine crank or combustion powertrain element"
    } else if contains_str(&t, "wheel") || contains_str(&t, "tire") || contains_str(&t, "tyre") {
        "ground contact rolling element"
    } else if contains_str(&t, "steering") || contains_str(&t, "rack") {
        "steering input or linkage element"
    } else if crate::text::chars_eq_str(&s, "structural frame") {
        "rigid welded structural member"
    } else if crate::text::chars_eq_str(&s, "mounts and connectors") {
        "mounting connector or rigid attachment element"
    } else if crate::text::chars_eq_str(&s, "controls and data") {
        "control, signal, or data-bearing element"
    } else {
        "part role inferred from category and behaviours"
    }
}

/// Structural frame members and mounts are the structural systems.
pub open spec fn structural_system(system: Seq<char>) -> bool {
    system == "structural frame"@ || system == "mounts and connectors"@
}

/// Whether a part counts as structural, and whether as functional: a part
/// that is not structural, or has behaviours, or has link nodes.
pub fn part_roles(system: &str, behaviour_count: usize, link_node_count: i64) -> (r: (bool, bool))
    ensures
        r.0 == structural_system(system@),
        r.1 == (!structural_system(system@) || behaviour_count > 0 || link_node_count > 0),
{
    let s = chars_of(system);
    let structural = crate::text::chars_eq_str(&s, "structural frame") || crate::text::chars_eq_str(
        &s,
        "mounts and connectors",
    );
    (structural, !structural || behaviour_count > 0 || link_node_count > 0)
}

pub fn option_bool_label(value: Option<bool>) -> (r: &'static str)
    ensures
        r@ == match value {
            Some(true) => "true"@,
            Some(false) => "false"@,
            None => "unknown"@,
        },
{
    match value {
        Some(true) => "true",
        Some(false) => "false",
        None => "unknown",
    }
}

/// The display name of a part: the first non-blank of its full display
/// name, display name and asset name, trimmed; or "Unnamed part".
pub open spec fn part_display_name(full_display_name: Seq<char>, display_name: Seq<char>, asset_name: Seq<
    char,
>) -> Seq<char> {
    if trim(full_display_name).len() > 0 {
        trim(full_display_name)
    } else if trim(display_name).len() > 0 {
        trim(display_name)
    } else if trim(asset_name).len() > 0 {
        trim(asset_name)
    } else {
        "Unnamed part"@
    }
}

pub fn part_name(full_display_name: &str, display_name: &str, asset_name: &str) -> (r: String)
    ensures
        r@ == part_display_name(full_display_name@, display_name@, asset_name@),
{
    let a = trim_chars(&chars_of(full_display_name));
    if a.len() > 0 {
        return string_of(&a);
    }
    let b = trim_chars(&chars_of(display_name));
    if b.len() > 0 {
        return string_of(&b);
    }
    let c = trim_chars(&chars_of(asset_name));
    if c.len() > 0 {
        return string_of(&c);
    }
    String::from_str("Unnamed part")
}

/// How a part is referred to: by its runtime id and index, prefixed with
/// its construction when it has one.
pub open spec fn part_reference_text(construction_id: Seq<char>, runtime_part_id: i64, runtime_part_index: i64) -> Seq<
    char,
> {
    let tail = "#"@ + crate::text::signed_decimal(runtime_part_id as int) + " idx "@
        + crate::text::signed_decimal(runtime_part_index as int);
    if trim(construction_id).len() == 0 {
        tail
    } else {
        "construction "@ + construction_id + " / "@ + tail
    }
}

pub fn part_reference(construction_id: &str, runtime_part_id: i64, runtime_part_index: i64) -> (r:
    String)
    ensures
        r@ == part_reference_text(construction_id@, runtime_part_id, runtime_part_index),
{
    let mut tail = chars_of("#");
    crate::text::extend_chars(&mut tail, &crate::text::i64_to_decimal(runtime_part_id));
    extend_str(&mut tail, " idx ");
    crate::text::extend_chars(&mut tail, &crate::text::i64_to_decimal(runtime_part_index));
    let c = chars_of(construction_id);
    if trim_chars(&c).len() == 0 {
        string_of(&tail)
    } else {
        let mut out = chars_of("construction ");
        crate::text::extend_chars(&mut out, &c);
        extend_str(&mut out, " / ");
        crate::text::extend_chars(&mut out, &tail);
        string_of(&out)
    }
}

/// The fixed section that lists the API surfaces a build guide may draw on.
pub fn build_guide_api_context_section() -> (r: String)
    ensures
        r@ == "## Build Guide API Context\nUse these exported GearBlocks API surfaces when explaining build guides and current scene state:\n- `IPart`: part identity, category, mass, visibility/collision/selectability, world position, local position, orientation, and current unit size.\n- `IPartPaint` and `IPartProperties`: paint target colour, paintability, material name, strength, density, and material swap capability.\n- `IPartAttachments`, `IAttachment`, `ILinkNode`, and `ILink`: owned/associated attachments, attached parts, attachment type names, locked state, joint/interior flags, link-node type names, link availability, and connection positions.\n- `ITweakables`, `IResizable`, and `IControllablePartBehaviour`: configurable settings such as tweakable labels/values, resize step, current unit size, control bindings, activation state, direction/inversion options, and RPM/limit settings when the game exposes them.\n- `IEngineCrank`, `IEngineDrivenCrank`, `IEngineCylinder`, and `IEngineHead`: combustion-engine relationships, including crank, driven crank, crank shaft, linked cylinders, cylinder head, crank angle, timing angle, and current rotation speed.\nIf a requested value is absent, say it was not exposed in the latest export rather than guessing."@,
{
    String::from_str(
        "## Build Guide API Context\nUse these exported GearBlocks API surfaces when explaining build guides and current scene state:\n- `IPart`: part identity, category, mass, visibility/collision/selectability, world position, local position, orientation, and current unit size.\n- `IPartPaint` and `IPartProperties`: paint target colour, paintability, material name, strength, density, and material swap capability.\n- `IPartAttachments`, `IAttachment`, `ILinkNode`, and `ILink`: owned/associated attachments, attached parts, attachment type names, locked state, joint/interior flags, link-node type names, link availability, and connection positions.\n- `ITweakables`, `IResizable`, and `IControllablePartBehaviour`: configurable settings such as tweakable labels/values, resize step, current unit size, control bindings, activation state, direction/inversion options, and RPM/limit settings when the game exposes them.\n- `IEngineCrank`, `IEngineDrivenCrank`, `IEngineCylinder`, and `IEngineHead`: combustion-engine relationships, including crank, driven crank, crank shaft, linked cylinders, cylinder head, crank angle, timing angle, and current rotation speed.\nIf a requested value is absent, say it was not exposed in the latest export rather than guessing.",
    )
}

pub const SCENE_CONTEXT_HEADER: &'static str = "# GearBlocks Runtime Scene Context";

pub const SCENE_CONTEXT_INTRO: &'static str = "Source: normalized SQLite runtime scene rows. Treat part keys, instance keys, construction ids, runtime ids, and indexes as database references for the current scene. Raw full-scene export JSON is not retained after import.";

/// The scene context: the header, the note on its source, then each
/// section in order, separated by blank lines.
pub open spec fn scene_context_spec(sections: Seq<Seq<char>>) -> Seq<char> {
    join(seq![SCENE_CONTEXT_HEADER@, SCENE_CONTEXT_INTRO@] + sections, "\n\n"@)
}

/// Assembles the scene context from its sections (source, system counts,
/// the two inventories, aliases, coordinates, construction groups, the
/// build-guide API, definition details, structural bounds, functional
/// parts).
pub fn scene_context_text(sections: &Vec<String>) -> (r: String)
    ensures
        r@ == scene_context_spec(sections@.map_values(|s: String| s@)),
{
    let mut parts: Vec<Vec<char>> = Vec::new();
    parts.push(chars_of(SCENE_CONTEXT_HEADER));
    parts.push(chars_of(SCENE_CONTEXT_INTRO));
    let ghost head = seq![SCENE_CONTEXT_HEADER@, SCENE_CONTEXT_INTRO@];
    assert(views(parts@) =~= head);
    let mut i: usize = 0;
    while i < sections.len()
        invariant
            i <= sections@.len(),
            head == seq![SCENE_CONTEXT_HEADER@, SCENE_CONTEXT_INTRO@],
            views(parts@) == head + sections@.map_values(|s: String| s@).take(i as int),
        decreases sections@.len() - i,
    {
        let ghost before = parts@;
        parts.push(chars_of(sections[i].as_str()));
        assert(views(parts@) =~= views(before).push(sections@[i as int]@));
        assert(sections@.map_values(|s: String| s@).take(i as int + 1) =~= sections@.map_values(
            |s: String| s@,
        ).take(i as int).push(sections@[i as int]@));
        i = i + 1;
    }
    assert(sections@.map_values(|s: String| s@).take(sections@.len() as int) =~= sections@.map_values(
        |s: String| s@,
    ));
    let joined = join_chars(&parts, &chars_of("\n\n"));
    string_of(&joined)
}

} // verus!
