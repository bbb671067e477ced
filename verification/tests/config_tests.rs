use pake_shell::config::{load_config, resolve_config, ConfigError, RawManifest, WindowSettings};

#[test]
fn manifest_with_declared_values_resolves_exactly() {
    let manifest = r#"{
        "package": { "productName": "Demo" },
        "tauri": { "windows": [ {
            "url": "https://a.test",
            "width": 800,
            "height": 600,
            "resizable": true,
            "fullscreen": false
        } ] }
    }"#;
    let config = load_config(manifest).expect("resolution should succeed");
    assert_eq!(config.package_name, "demo");
    // An absolute URL is carried through URL normalization, which adds the
    // trailing slash of an empty path.
    assert_eq!(config.window.url, "https://a.test/");
    assert_eq!(config.window.width, 800);
    assert_eq!(config.window.height, 600);
    assert!(config.window.resizable);
    assert!(!config.window.fullscreen);
    assert!(!config.window.transparent);
}

#[test]
fn manifest_field_defaults_apply_when_absent() {
    let manifest = r#"{
        "package": { "productName": "Demo" },
        "tauri": { "windows": [ { "url": "https://a.test" } ] }
    }"#;
    let config = load_config(manifest).expect("resolution should succeed");
    assert_eq!(config.window.width, 800);
    assert_eq!(config.window.height, 600);
    assert!(config.window.resizable);
    assert!(!config.window.fullscreen);
}

#[test]
fn manifest_without_window_section_uses_default_window() {
    let manifest = r#"{ "package": { "productName": "Solo" } }"#;
    let config = load_config(manifest).expect("resolution should succeed");
    assert_eq!(config.package_name, "solo");
    assert_eq!(config.window.url, "index.html");
    assert_eq!(config.window.width, 800);
    assert_eq!(config.window.height, 600);
    assert!(config.window.resizable);
    assert!(!config.window.fullscreen);
    assert!(!config.window.transparent);
}

#[test]
fn fullscreen_and_transparent_flags_pass_through() {
    let manifest = r#"{
        "package": { "productName": "Kiosk" },
        "tauri": { "windows": [ {
            "url": "https://k.test",
            "width": 1280,
            "height": 720,
            "resizable": false,
            "fullscreen": true,
            "transparent": true
        } ] }
    }"#;
    let config = load_config(manifest).expect("resolution should succeed");
    assert!(config.window.fullscreen);
    assert!(config.window.transparent);
    assert!(!config.window.resizable);
    assert_eq!(config.window.width, 1280);
    assert_eq!(config.window.height, 720);
}

#[test]
fn app_relative_url_is_kept_verbatim() {
    let manifest = r#"{
        "package": { "productName": "Local" },
        "tauri": { "windows": [ { "url": "app.html" } ] }
    }"#;
    let config = load_config(manifest).expect("resolution should succeed");
    assert_eq!(config.window.url, "app.html");
}

#[test]
fn missing_product_name_is_fatal() {
    let manifest = r#"{ "package": {}, "tauri": { "windows": [ { "url": "https://a.test" } ] } }"#;
    let err = load_config(manifest).expect_err("resolution should fail");
    assert_eq!(err, ConfigError::MissingProductName);
}

#[test]
fn empty_manifest_object_is_missing_product_name() {
    let err = load_config("{}").expect_err("resolution should fail");
    assert_eq!(err, ConfigError::MissingProductName);
}

#[test]
fn unreadable_manifest_is_fatal() {
    let err = load_config("this is not a manifest").expect_err("resolution should fail");
    assert_eq!(err, ConfigError::ManifestUnreadable);
    let err = load_config(r#"{ "package": 3 }"#).expect_err("resolution should fail");
    assert_eq!(err, ConfigError::ManifestUnreadable);
}

#[test]
fn product_name_is_lowercased_for_filesystem_use() {
    let manifest = r#"{ "package": { "productName": "My APP Name" } }"#;
    let config = load_config(manifest).expect("resolution should succeed");
    assert_eq!(config.package_name, "my app name");
}

#[test]
fn resolve_config_on_parsed_values() {
    let raw = RawManifest {
        product_name: Some(String::from("Gamma")),
        window: Some(WindowSettings {
            url: String::from("https://b.test/page"),
            width: 1024,
            height: 768,
            resizable: false,
            fullscreen: true,
            transparent: false,
        }),
    };
    let config = resolve_config(Some(raw)).expect("resolution should succeed");
    assert_eq!(config.package_name, "gamma");
    assert_eq!(config.window.url, "https://b.test/page");
    assert_eq!(config.window.width, 1024);
    assert_eq!(config.window.height, 768);
    assert!(!config.window.resizable);
    assert!(config.window.fullscreen);

    let err = resolve_config(None).expect_err("no parse result is fatal");
    assert_eq!(err, ConfigError::ManifestUnreadable);
}
