use overlay_forge::products::{
    launch_failed_message, launch_target, not_installed_message, product_for_key, product_record,
    products, requested_product, ProductKind, WindowKind,
};

#[test]
fn registry_accepts_only_closed_product_keys() {
    assert!(matches!(ProductKind::parse("media"), Some(ProductKind::Media)));
    assert!(matches!(ProductKind::parse("gaming"), Some(ProductKind::Gaming)));
    assert!(matches!(ProductKind::parse("retirement"), Some(ProductKind::Retirement)));
    assert!(ProductKind::parse("powershell -Command calc").is_none());
}

#[test]
fn product_keys_parse_back_case_insensitively_after_trimming() {
    for kind in products() {
        assert_eq!(ProductKind::parse(kind.key()), Some(kind));
    }
    assert_eq!(ProductKind::parse("  MEDIA \n"), Some(ProductKind::Media));
    assert_eq!(ProductKind::parse("Gaming"), Some(ProductKind::Gaming));
    assert_eq!(ProductKind::parse(""), None);
    assert_eq!(ProductKind::parse("medias"), None);
}

#[test]
fn product_names_and_executables() {
    assert_eq!(ProductKind::Media.name(), "Overlay Forge Media");
    assert_eq!(ProductKind::Retirement.executable(), "overlay-forge-retirement.exe");
    assert_eq!(products(), vec![ProductKind::Media, ProductKind::Gaming, ProductKind::Retirement]);
}

#[test]
fn window_labels_and_standalone_windows() {
    assert_eq!(WindowKind::Main.label(), "main");
    assert_eq!(WindowKind::GameChat.label(), "game-chat");
    assert_eq!(WindowKind::GameBuildGuide.label(), "game-build-guide");
    assert!(!WindowKind::Main.is_standalone());
    assert!(WindowKind::GameChat.is_standalone());
}

#[test]
fn launch_targets_follow_arguments_then_the_saved_product() {
    let args = vec!["--verbose".to_string(), "--product=Gaming".to_string(), "media".to_string()];
    assert_eq!(requested_product(&args), Some(ProductKind::Gaming));
    assert_eq!(requested_product(&vec!["--product=--product=retirement".to_string()]), Some(ProductKind::Retirement));
    assert_eq!(requested_product(&vec!["--product=".to_string()]), None);
    let all = [ProductKind::Media, ProductKind::Gaming, ProductKind::Retirement];
    assert_eq!(launch_target(None, Some(" MEDIA ".to_string()), &all), Some(ProductKind::Media));
    assert_eq!(launch_target(Some(ProductKind::Gaming), Some("media".to_string()), &all), Some(ProductKind::Gaming));
    assert_eq!(launch_target(None, Some("calc".to_string()), &all), None);
    assert_eq!(product_for_key("retirement").unwrap(), ProductKind::Retirement);
    assert_eq!(product_for_key("x").unwrap_err(), "Unknown product target.");
    assert_eq!(
        not_installed_message(ProductKind::Media),
        "Overlay Forge Media is not installed or built in its sibling development repository."
    );
    assert_eq!(launch_failed_message(ProductKind::Gaming, "denied"), "Could not launch Overlay Forge Gaming: denied");
    let record = product_record(ProductKind::Retirement, None);
    assert_eq!((record.key.as_str(), record.available, record.launch_path.as_str()), ("retirement", false, ""));
    assert!(product_record(ProductKind::Media, Some("C:/m.exe".to_string())).available);
}

#[test]
fn construction_interfaces_are_listed() {
    let defs = overlay_forge::gearblocks_api::construction_interface_definitions();
    assert_eq!(defs.len(), 22);
    assert_eq!(defs[0].name, "IAttachment");
    assert_eq!(defs[21].name, "ITweakables");
    assert!(defs[13].members.contains(&"DisplayName"));
}

#[test]
fn launches_resume_an_installed_product_and_otherwise_show_the_picker() {
    let media_only = [ProductKind::Media];
    assert_eq!(
        launch_target(Some(ProductKind::Gaming), Some("media".to_string()), &media_only),
        Some(ProductKind::Media)
    );
    assert_eq!(launch_target(Some(ProductKind::Gaming), Some("retirement".to_string()), &media_only), None);
    assert_eq!(launch_target(None, None, &media_only), None);
    assert_eq!(launch_target(Some(ProductKind::Media), None, &[]), None);
}

#[test]
fn main_window_is_transient_and_not_always_on_top() {
    let config = WindowKind::Main.runtime_config();

    assert!(!config.always_on_top);
    assert!(config.hide_on_focus_loss);
}

#[test]
fn standalone_windows_remain_always_on_top_and_visible_after_focus_loss() {
    for kind in [WindowKind::GameChat, WindowKind::GameBuildGuide] {
        let config = kind.runtime_config();

        assert!(config.always_on_top);
        assert!(!config.hide_on_focus_loss);
    }
}
