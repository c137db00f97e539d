use overlay_forge::gearblocks_scene_groups::{
    construction_groups_section, inventory_section, parse_i64, SceneGroupPart, SceneInventoryPart,
    CONSTRUCTION_GROUPS_HEADER, NO_CONSTRUCTION_GROUPS,
};

fn part(construction: &str, id: i64, index: i64, name: &str) -> SceneGroupPart {
    SceneGroupPart {
        source_construction_id: construction.to_string(),
        runtime_part_id: id,
        runtime_part_index: index,
        full_display_name: name.to_string(),
        display_name: String::new(),
        asset_name: String::new(),
    }
}

fn parsed(text: &str) -> Option<i64> {
    parse_i64(&text.chars().collect())
}

#[test]
fn integers_parse_as_the_standard_library_reads_them() {
    assert_eq!(parsed("42"), Some(42));
    assert_eq!(parsed("-7"), Some(-7));
    assert_eq!(parsed("+5"), Some(5));
    assert_eq!(parsed("007"), Some(7));
    assert_eq!(parsed("9223372036854775807"), Some(i64::MAX));
    assert_eq!(parsed("-9223372036854775808"), Some(i64::MIN));
    for text in ["", "-", "+", " 1", "1a", "9223372036854775808", "-9223372036854775809", "1_000"] {
        assert_eq!(parsed(text), text.parse::<i64>().ok(), "{text:?}");
        assert_eq!(parsed(text), None);
    }
}

#[test]
fn construction_groups_are_ordered_and_inventoried() {
    let mut motor = part("abc", 1, 0, "");
    motor.display_name = " Motor ".to_string();
    let parts = vec![
        part("10", 5, 1, "Beam"),
        part("2", 3, 0, "Wheel"),
        part("10", 4, 0, "Beam"),
        motor,
        part(" ", 9, 9, "Loose"),
        part("", 8, 8, "Loose"),
        part("2", 7, 0, "Axle"),
    ];
    let expected = format!(
        "{CONSTRUCTION_GROUPS_HEADER}\n- construction abc: 1 part(s); Motor x1 [#1 idx 0]\n- construction 2: 2 part(s); Axle x1 [#7 idx 0]; Wheel x1 [#3 idx 0]\n- construction 10: 2 part(s); Beam x2 [#4 idx 0, #5 idx 1]"
    );
    assert_eq!(construction_groups_section(&parts), expected);
}

#[test]
fn construction_groups_cap_references_rows_and_groups() {
    let mut parts: Vec<SceneGroupPart> = (0..30).map(|i| part("1", i, i, "Bolt")).collect();
    for i in 0..11 {
        parts.push(part("1", 100 + i, 100, &format!("Part {i:02}")));
    }
    let section = construction_groups_section(&parts);
    let refs = (0..24).map(|i| format!("#{i} idx {i}")).collect::<Vec<_>>().join(", ");
    let rows = (0..9).map(|i| format!("Part {i:02} x1 [#{} idx 100]", 100 + i)).collect::<Vec<_>>();
    let expected = format!(
        "{CONSTRUCTION_GROUPS_HEADER}\n- construction 1: 41 part(s); Bolt x30 [{refs}, ... 6 more]; {}",
        rows.join("; ")
    );
    assert_eq!(section, expected);

    let many: Vec<SceneGroupPart> = (0..125).map(|i| part(&format!("{i}"), i, 0, "Beam")).collect();
    let section = construction_groups_section(&many);
    assert_eq!(section.lines().count(), 2 + 120);
    assert!(section.ends_with("- construction 119: 1 part(s); Beam x1 [#119 idx 0]"));
}

#[test]
fn scenes_without_constructions_say_so() {
    assert_eq!(construction_groups_section(&Vec::new()), NO_CONSTRUCTION_GROUPS);
    assert_eq!(construction_groups_section(&vec![part("  ", 1, 1, "Beam")]), NO_CONSTRUCTION_GROUPS);
}

fn classified(system: &str, name: &str, is_structural: bool) -> SceneInventoryPart {
    SceneInventoryPart { system: system.to_string(), name: name.to_string(), is_structural }
}

#[test]
fn inventories_count_by_system_and_name() {
    let parts = vec![
        classified("structural frame", "Beam", true),
        classified("power", "Motor", false),
        classified("structural frame", "Beam", true),
        classified("power", "Battery", false),
        classified("power", "Motor", false),
    ];
    assert_eq!(
        inventory_section("Functional inventory by system", &parts, false),
        "## Functional inventory by system\n- power | Battery x1\n- power | Motor x2"
    );
    assert_eq!(
        inventory_section("Structural inventory", &parts, true),
        "## Structural inventory\n- structural frame | Beam x2"
    );
    assert_eq!(
        inventory_section("Structural inventory", &parts[1..2].to_vec(), true),
        "## Structural inventory\nNo matching parts identified."
    );
    let crowd: Vec<SceneInventoryPart> = (0..90).map(|i| classified("power", &format!("P{i:03}"), false)).collect();
    let section = inventory_section("Functional inventory by system", &crowd, false);
    assert_eq!(section.lines().count(), 81);
    assert!(section.ends_with("- power | P079 x1"));
}
