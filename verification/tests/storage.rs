use qrforge::hotkey::Hotkey;
use qrforge::settings::{AppSettings, SETTINGS_SCHEMA_VERSION};
use qrforge::storage::{decode_settings, settings_from_fields, JsonScalar};

#[test]
fn invalid_fields_fall_back_independently() {
    let (loaded, rewrite) = decode_settings(
        br#"{
          "schemaVersion": 1,
          "hotkey": "not valid",
          "launchAtStartup": true,
          "autoOpenSafeUrls": "yes",
          "copyNonUrlPayloads": false,
          "notificationsEnabled": 3
        }"#,
    )
    .expect("load settings");
    assert_eq!(loaded.hotkey, Hotkey::default());
    assert!(loaded.launch_at_startup);
    assert!(loaded.auto_open_safe_urls);
    assert!(!loaded.copy_non_url_payloads);
    assert!(loaded.notifications_enabled);
    assert!(!rewrite);
}

#[test]
fn migrates_version_zero_and_rewrites_current_schema() {
    let (loaded, rewrite) = decode_settings(
        br#"{
          "hotkey": "Ctrl+Alt+M",
          "autoOpen": false,
          "copyText": false,
          "notifications": false
        }"#,
    )
    .expect("migrate settings");
    assert_eq!(loaded.schema_version, SETTINGS_SCHEMA_VERSION);
    assert_eq!(loaded.hotkey.to_string(), "Ctrl+Alt+M");
    assert!(!loaded.auto_open_safe_urls);
    assert!(!loaded.copy_non_url_payloads);
    assert!(!loaded.notifications_enabled);
    assert!(rewrite);
}

#[test]
fn documents_that_are_not_objects_give_defaults_and_invalid_json_is_refused() {
    let (loaded, rewrite) = decode_settings(b"[1, 2, 3]").expect("array document");
    assert_eq!(loaded, AppSettings::default());
    assert!(!rewrite);
    let error = decode_settings(b"{ not json").expect_err("invalid JSON");
    assert_eq!(error.operation(), "settings_read");
    assert!(!error.detail().is_empty());
}

#[test]
fn display_choice_and_first_run_state_are_read() {
    let (loaded, _) = decode_settings(
        br#"{"schemaVersion": 1, "scanMonitorId": "display-0123456789abcdef", "onboardingCompleted": true}"#,
    )
    .expect("settings");
    assert_eq!(
        loaded.scan_monitor_id.as_ref().map(|id| id.as_str()),
        Some("display-0123456789abcdef")
    );
    assert!(loaded.onboarding_completed);
    let (loaded, _) =
        decode_settings(br#"{"schemaVersion": 1, "scanMonitorId": "../etc"}"#).expect("settings");
    assert_eq!(loaded.scan_monitor_id, None);
}

#[test]
fn versions_out_of_range_count_as_unversioned() {
    let fields = vec![
        ("schemaVersion".to_owned(), JsonScalar::Number(Some(1 << 40))),
        ("autoOpen".to_owned(), JsonScalar::Bool(false)),
        ("autoOpenSafeUrls".to_owned(), JsonScalar::Bool(true)),
    ];
    let (settings, rewrite) = settings_from_fields(&fields);
    assert!(rewrite);
    assert!(!settings.auto_open_safe_urls);
    let fields = vec![
        ("schemaVersion".to_owned(), JsonScalar::Number(Some(1))),
        ("autoOpen".to_owned(), JsonScalar::Bool(false)),
        ("autoOpenSafeUrls".to_owned(), JsonScalar::Other),
    ];
    let (settings, rewrite) = settings_from_fields(&fields);
    assert!(!rewrite);
    assert!(settings.auto_open_safe_urls);
}
