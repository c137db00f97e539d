use overlay_forge::github::{normalize_repository_full_name, repository_error_message, repository_visibility};

#[test]
fn repository_names_use_owner_slash_name() {
    assert_eq!(normalize_repository_full_name("  octo/hello-world.rs ").unwrap(), "octo/hello-world.rs");
    let message = "GitHub repository must use the owner/repository-name format.";
    assert_eq!(normalize_repository_full_name("octo").unwrap_err(), message);
    assert_eq!(normalize_repository_full_name("a/b/c").unwrap_err(), message);
    assert_eq!(normalize_repository_full_name("/repo").unwrap_err(), message);
    assert_eq!(normalize_repository_full_name("octo/hello world").unwrap_err(), message);
    assert_eq!(normalize_repository_full_name("octo/héllo").unwrap_err(), message);
}

#[test]
fn repository_visibility_and_error_messages() {
    assert_eq!(repository_visibility(Some("internal".to_string()), true), "internal");
    assert_eq!(repository_visibility(None, true), "private");
    assert_eq!(repository_visibility(None, false), "public");
    assert_eq!(repository_error_message(Some("Not Found".to_string()), "404"), "GitHub request failed: Not Found");
    assert_eq!(repository_error_message(None, "500 Internal Server Error"), "GitHub request failed with status 500 Internal Server Error");
}

#[test]
fn repository_names_need_exactly_one_slash_between_safe_parts() {
    assert_eq!(
        normalize_repository_full_name(" robcross42/overlay-forge-media ").unwrap(),
        "robcross42/overlay-forge-media"
    );
    assert!(normalize_repository_full_name("a/b/c").is_err());
    assert!(normalize_repository_full_name("/name").is_err());
    assert!(normalize_repository_full_name("owner/").is_err());
    assert!(normalize_repository_full_name("own er/name").is_err());
}
