use overlay_forge::hotkeys::{
    default_keybinds, display_code, is_common_editing_key, is_mouse_shortcut_text,
    is_printable_key, keyboard_shortcut_policy, merge_with_defaults, normalize_key_part,
    normalize_key_parts, normalize_keybinds, normalize_keyboard_shortcut,
    normalize_mouse_shortcut_text, shortcut_from_key_parts, validate_keybinds,
    validate_mouse_shortcut_policy, KeybindConfig, KeyboardCheck, ShortcutModifiers,
};

fn keys(values: &[&str]) -> Vec<String> {
    values.iter().map(|value| value.to_string()).collect()
}

fn no_modifiers() -> ShortcutModifiers {
    ShortcutModifiers { control: false, shift: false, alt: false, super_key: false }
}

#[test]
fn default_bindings_cover_every_action_in_order() {
    let defaults = default_keybinds();
    let actions: Vec<&str> = defaults.iter().map(|k| k.action.as_str()).collect();
    assert_eq!(
        actions,
        vec![
            "toggle_overlay",
            "game_chat_overlay",
            "game_chat_region_capture",
            "game_build_guide_overlay",
            "record_smoking_event"
        ]
    );
    assert_eq!(defaults[0].keys, keys(&["Ctrl", "Shift", "Space"]));
    assert!(defaults[2].keys.is_empty());
    assert_eq!(defaults[4].label, "Record Cigarette");
}

#[test]
fn key_names_are_normalised() {
    assert_eq!(normalize_key_part(" control "), "Ctrl");
    assert_eq!(normalize_key_part("OPTION"), "Alt");
    assert_eq!(normalize_key_part("esc"), "Escape");
    assert_eq!(normalize_key_part("LeftClick"), "MouseLeft");
    assert_eq!(normalize_key_part("xbutton2"), "Mouse5");
    assert_eq!(normalize_key_part("g"), "G");
    assert_eq!(normalize_key_part("F4"), "f4");
    assert_eq!(normalize_key_part("é"), "é");
    assert_eq!(normalize_key_part("   "), "");
}

#[test]
fn key_lists_are_split_filtered_and_capped_at_three() {
    assert_eq!(normalize_key_parts(&keys(&["ctrl+ shift +x"])), keys(&["Ctrl", "Shift", "X"]));
    assert_eq!(normalize_key_parts(&keys(&["a", " ", "b", "c", "d"])), keys(&["A", "B"]));
    assert_eq!(normalize_key_parts(&keys(&["a+b+c+d"])), keys(&["A", "B", "C"]));
    assert_eq!(shortcut_from_key_parts(&keys(&["ctrl", "shift", "space"])), "Ctrl+Shift+Space");
    assert_eq!(shortcut_from_key_parts(&Vec::new()), "");
}

#[test]
fn mouse_shortcuts_are_recognised_and_checked() {
    assert!(is_mouse_shortcut_text("Ctrl+mouse4"));
    assert!(!is_mouse_shortcut_text("Ctrl+G"));
    assert_eq!(normalize_mouse_shortcut_text("shift + mouse3").unwrap(), "Shift+MouseMiddle");
    assert_eq!(
        normalize_mouse_shortcut_text("mouse1+ctrl").unwrap_err(),
        "Mouse button must be the final keybind part"
    );
    assert_eq!(
        normalize_mouse_shortcut_text("mouse1+mouse2").unwrap_err(),
        "Mouse shortcuts must include exactly one mouse button"
    );
    assert_eq!(normalize_mouse_shortcut_text("+").unwrap_err(), "Mouse shortcut cannot be empty");
    assert!(validate_mouse_shortcut_policy("Ctrl+MouseLeft").is_ok());
    assert!(validate_mouse_shortcut_policy("Mouse4").is_ok());
    assert_eq!(
        validate_mouse_shortcut_policy("MouseLeft").unwrap_err(),
        "MouseLeft requires Ctrl, Shift, or Alt so normal clicks are not intercepted"
    );
    assert_eq!(
        validate_mouse_shortcut_policy("Ctrl+Ctrl+Mouse4").unwrap_err(),
        "Duplicate keybind part is not allowed: Ctrl"
    );
    assert_eq!(
        validate_mouse_shortcut_policy("Win+Mouse4").unwrap_err(),
        "win is not supported as a mouse shortcut modifier"
    );
    assert_eq!(
        validate_mouse_shortcut_policy("Ctrl+Shift+Alt+Mouse4").unwrap_err(),
        "Use at most two modifier keys plus one normal key"
    );
}

#[test]
fn keyboard_shortcut_rules() {
    let ctrl = ShortcutModifiers { control: true, ..no_modifiers() };
    let ctrl_shift = ShortcutModifiers { shift: true, ..ctrl };
    assert!(keyboard_shortcut_policy(ctrl_shift, "KeyC").is_ok());
    assert_eq!(
        keyboard_shortcut_policy(ctrl, "KeyC").unwrap_err(),
        "Ctrl+C is reserved for common app editing commands"
    );
    assert_eq!(
        keyboard_shortcut_policy(no_modifiers(), "Digit5").unwrap_err(),
        "Single printable keys are not allowed as global shortcuts"
    );
    assert!(keyboard_shortcut_policy(no_modifiers(), "F8").is_ok());
    assert_eq!(
        keyboard_shortcut_policy(ctrl, "Escape").unwrap_err(),
        "Escape is reserved and cannot be mapped"
    );
    let alt = ShortcutModifiers { alt: true, ..no_modifiers() };
    assert_eq!(keyboard_shortcut_policy(alt, "F4").unwrap_err(), "Alt+F4 is reserved for closing windows");
    let super_key = ShortcutModifiers { super_key: true, ..no_modifiers() };
    assert_eq!(
        keyboard_shortcut_policy(super_key, "KeyE").unwrap_err(),
        "Windows/Super key shortcuts are reserved for the operating system"
    );
    let three = ShortcutModifiers { alt: true, ..ctrl_shift };
    assert_eq!(
        keyboard_shortcut_policy(three, "KeyE").unwrap_err(),
        "Use at most two modifier keys plus one normal key"
    );
    assert_eq!(normalize_keyboard_shortcut(ctrl_shift, "KeyG"), "Ctrl+Shift+G");
    assert_eq!(display_code("Digit7"), "7");
    assert_eq!(display_code("Space"), "Space");
    assert!(is_printable_key("Backquote"));
    assert!(!is_printable_key("KeyAB"));
    assert!(is_common_editing_key("KeyZ"));
    assert!(!is_common_editing_key("KeyB"));
}

#[test]
fn merging_with_defaults_restores_missing_actions_and_drops_unknown_ones() {
    let stored = vec![
        KeybindConfig { action: "unknown".to_string(), label: "X".to_string(), keys: keys(&["a"]) },
        KeybindConfig {
            action: "game_chat_overlay".to_string(),
            label: "Renamed".to_string(),
            keys: keys(&["ctrl+alt+k"]),
        },
    ];
    let merged = merge_with_defaults(stored);
    assert_eq!(merged.len(), 5);
    assert_eq!(merged[1].label, "Open Gaming Chat Overlay");
    assert_eq!(merged[1].keys, keys(&["Ctrl", "Alt", "K"]));
    assert_eq!(merged[0].keys, keys(&["Ctrl", "Shift", "Space"]));
    let normalized = normalize_keybinds(merged).unwrap();
    assert_eq!(normalized[1].keys, keys(&["Ctrl", "Alt", "K"]));
}

#[test]
fn keybind_lists_are_validated_in_order() {
    let ok = |normalized: &str| KeyboardCheck { normalized: Ok(normalized.to_string()), policy: Ok(()) };
    let defaults = default_keybinds();
    let checks = vec![
        ok("Ctrl+Shift+Space"),
        ok("Ctrl+Shift+C"),
        ok(""),
        ok("Ctrl+Shift+G"),
        ok(""),
    ];
    assert!(validate_keybinds(&defaults, &checks).is_ok());
    let mut duplicated = default_keybinds();
    duplicated[1].keys = keys(&["ctrl", "shift", "space"]);
    let checks = vec![
        ok("Ctrl+Shift+Space"),
        ok("Ctrl+Shift+Space"),
        ok(""),
        ok("Ctrl+Shift+G"),
        ok(""),
    ];
    assert_eq!(
        validate_keybinds(&duplicated, &checks).unwrap_err(),
        "Duplicate keybind is not allowed: Ctrl+Shift+Space"
    );
    let unknown = vec![KeybindConfig { action: "nope".to_string(), label: "N".to_string(), keys: Vec::new() }];
    assert_eq!(
        validate_keybinds(&unknown, &vec![ok("")]).unwrap_err(),
        "Unknown keybind function: nope"
    );
    let too_many = vec![KeybindConfig {
        action: "toggle_overlay".to_string(),
        label: "Toggle".to_string(),
        keys: keys(&["a", "b", "c", "d"]),
    }];
    assert_eq!(
        validate_keybinds(&too_many, &vec![ok("")]).unwrap_err(),
        "Toggle can have at most three keybinds"
    );
    let mouse = vec![KeybindConfig {
        action: "toggle_overlay".to_string(),
        label: "Toggle".to_string(),
        keys: keys(&["mouseleft"]),
    }];
    assert_eq!(
        validate_keybinds(&mouse, &vec![ok("")]).unwrap_err(),
        "MouseLeft requires Ctrl, Shift, or Alt so normal clicks are not intercepted"
    );
}
