use qrforge::desktop::{
    clear_results_if_chooser_unavailable, configured_monitor_available, feedback_tooltip,
    idle_tooltip, notification_message, result_error, settings_error, WorkerGate,
};
use qrforge::diagnostics::{
    duration_ms, rotation_plan, sanitize_field, BuildInfo, DiagnosticSnapshot, Diagnostics,
    LogRotation, MAX_FIELD_CHARS, MAX_LOG_BYTES, MAX_RECENT_ERRORS,
};
use qrforge::hotkey::HotkeyParseError;
use qrforge::monitor::{MonitorId, MonitorInfo};
use qrforge::payload::SafeHttpUrl;
use qrforge::ports::{BrowserPort, ClipboardPort, Notification, PortError};
use qrforge::results::{ResultActionError, ResultService};
use qrforge::scan::{FailureStage, ScanOutcome};
use qrforge::settings::AppSettings;
use qrforge::settings_service::{SettingsError, SettingsSnapshot};
use std::sync::Arc;

struct UnusedSystemPort;

impl BrowserPort for UnusedSystemPort {
    fn open(&self, _url: &SafeHttpUrl) -> Result<(), PortError> {
        unreachable!("lifecycle test does not open URLs")
    }
}

impl ClipboardPort for UnusedSystemPort {
    fn set_text(&self, _text: &str) -> Result<(), PortError> {
        unreachable!("lifecycle test does not use the clipboard")
    }
}

#[test]
fn result_errors_are_sanitized_before_crossing_ipc() {
    let secret = "private payload and C:\\Users\\name\\machine-path";
    for error in [
        ResultActionError::Browser(PortError::new("browser", secret)),
        ResultActionError::Clipboard(PortError::new("clipboard", secret)),
    ] {
        let safe = result_error(&error);
        assert!(!safe.message.contains(secret));
        assert!(!safe.message.contains("C:\\"));
        assert!(matches!(safe.code, "browser_failed" | "clipboard_failed"));
    }
}

#[test]
fn worker_gate_never_admits_overlapping_workers() {
    let mut gate = WorkerGate::default();
    assert!(gate.try_acquire(), "first worker should start");
    assert!(!gate.try_acquire());
    gate.release();
    assert!(gate.try_acquire());
}

#[test]
fn chooser_failure_discards_only_its_pending_result_session() {
    let port = Arc::new(UnusedSystemPort);
    let mut results = ResultService::new(port.clone(), port);
    let first = results.publish(Vec::new());
    let replacement = results.publish(Vec::new());

    clear_results_if_chooser_unavailable(&mut results, first.session_id, false);
    assert_eq!(
        results.snapshot().map(|pending| pending.session_id),
        Some(replacement.session_id)
    );

    clear_results_if_chooser_unavailable(&mut results, replacement.session_id, false);
    assert!(results.snapshot().is_none());
}

#[test]
fn idle_tooltip_never_claims_a_stale_default_hotkey() {
    assert_eq!(
        idle_tooltip(Some("Ctrl+Alt+M")),
        "QRForge — press Ctrl+Alt+M to scan"
    );
    assert_eq!(idle_tooltip(None), "QRForge — configure hotkey in Settings");
}

fn settings() -> SettingsSnapshot {
    SettingsSnapshot {
        settings: AppSettings::default(),
        active_hotkey: Some("Ctrl+Shift+Q".to_owned()),
        hotkey_registered: true,
    }
}

fn build() -> BuildInfo {
    BuildInfo {
        app_version: "0.1.0".to_owned(),
        build_commit: "abc1234".to_owned(),
        os: "windows".to_owned(),
        arch: "x86_64".to_owned(),
        windows_version: sanitize_field("Windows 11 Pro 23H2 build 22631"),
        pid: 42,
        uptime_seconds: 7,
    }
}

#[test]
fn copyable_snapshot_has_stable_order_and_no_sensitive_values() {
    let mut diagnostics = Diagnostics::new(false);
    diagnostics.record_error("scan_decode_failed");
    let text = diagnostics.snapshot_text(
        &DiagnosticSnapshot {
            settings: &settings(),
            monitor_count: 2,
            configured_monitor_available: true,
            monitor_error: false,
        },
        &build(),
    );

    assert!(text.starts_with("QRForge diagnostics\nformatVersion=1\nappVersion="));
    assert!(text.contains("recentErrors=scan_decode_failed\n"));
    assert!(text.contains("logLocation=QRForge app data\\diagnostics.jsonl\n"));
    for forbidden in ["C:\\Users", "PRIVATE-QR", "USERNAME=", "TOKEN="] {
        assert!(!text.contains(forbidden));
    }
}

#[test]
fn snapshot_text_lists_every_field_in_order() {
    let diagnostics = Diagnostics::new(true);
    let text = diagnostics.snapshot_text(
        &DiagnosticSnapshot {
            settings: &settings(),
            monitor_count: 3,
            configured_monitor_available: false,
            monitor_error: true,
        },
        &build(),
    );
    assert_eq!(
        text,
        "QRForge diagnostics\nformatVersion=1\nappVersion=0.1.0\nbuildCommit=abc1234\n\
         target=windows-x86_64\nwindowsVersion=Windows 11 Pro 23H2 build 22631\n\
         settingsSchema=1\nhotkeyRegistered=true\nstartupConfigured=false\n\
         monitorSelection=automatic\nconfiguredMonitorAvailable=false\n\
         monitorEnumeration=failed\nmonitorCount=3\ndecoder=zxing-cpp-0.5.2\n\
         diagnosticLogging=enabled\nlogLocation=QRForge app data\\diagnostics.jsonl\n\
         logRetention=256KiB plus one archive\nrecentErrors=none\npid=42\nuptimeSeconds=7\n"
    );
}

#[test]
fn recent_errors_are_deduplicated_and_bounded() {
    let mut diagnostics = Diagnostics::new(false);
    for category in [
        "one", "one", "two", "three", "four", "five", "six", "seven", "eight", "nine",
    ] {
        diagnostics.record_error(category);
    }
    let errors = diagnostics.recent_errors();
    assert_eq!(errors.len(), MAX_RECENT_ERRORS);
    assert_eq!(errors.first().copied(), Some("two"));
    assert_eq!(errors.last().copied(), Some("nine"));
}

#[test]
fn failed_scans_record_their_stage() {
    let mut diagnostics = Diagnostics::new(false);
    diagnostics.record_scan_outcome(ScanOutcome::NoCode);
    assert!(diagnostics.recent_errors().is_empty());
    diagnostics.record_scan_outcome(ScanOutcome::Failed {
        stage: FailureStage::Clipboard,
    });
    diagnostics.record_scan_outcome(ScanOutcome::Failed {
        stage: FailureStage::Capture,
    });
    assert_eq!(
        diagnostics.recent_errors(),
        ["clipboard_write_failed", "scan_capture_failed"]
    );
}

#[test]
fn rotation_rejects_a_record_larger_than_the_log_limit() {
    assert_eq!(rotation_plan(MAX_LOG_BYTES + 1, 0), LogRotation::Reject);
}

#[test]
fn rotation_keeps_one_bounded_file_and_one_archive() {
    assert_eq!(rotation_plan(10, 0), LogRotation::Append);
    assert_eq!(rotation_plan(10, MAX_LOG_BYTES - 10), LogRotation::Append);
    assert_eq!(rotation_plan(10, MAX_LOG_BYTES - 9), LogRotation::Archive);
    assert_eq!(rotation_plan(10, MAX_LOG_BYTES + 1), LogRotation::Discard);
    assert_eq!(rotation_plan(1, u64::MAX), LogRotation::Discard);
}

#[test]
fn registry_fields_are_strictly_sanitized_and_bounded() {
    let value = sanitize_field("Windows\nC:\\Users\\alice TOKEN=secret / path");
    assert!(!value.contains(['\\', '/', '=', '\n']));
    assert!(value.chars().count() <= MAX_FIELD_CHARS);
}

#[test]
fn sanitized_fields_keep_safe_characters_only() {
    assert_eq!(
        sanitize_field("Windows\nC:\\Users\\alice TOKEN=secret / path"),
        "WindowsCUsersalice TOKENsecret  path"
    );
    assert_eq!(sanitize_field("\\/=\n"), "unavailable");
    assert_eq!(sanitize_field(&"a".repeat(100)), "a".repeat(80));
}

#[test]
fn durations_saturate() {
    assert_eq!(duration_ms(12), 12);
    assert_eq!(duration_ms(u128::MAX), u64::MAX);
}

#[test]
fn settings_errors_are_reported_with_fixed_codes() {
    let (error, category, notify) =
        settings_error(&SettingsError::InvalidHotkey(HotkeyParseError::KeyRequired));
    assert_eq!((error.code, category, notify), ("invalid_hotkey", "settings_invalid_hotkey", false));
    let (error, category, notify) = settings_error(&SettingsError::HotkeyRegistration(
        PortError::new("hotkey", "in use"),
    ));
    assert_eq!(
        (error.code, category, notify),
        ("hotkey_conflict", "hotkey_registration_failed", true)
    );
    let (error, category, notify) = settings_error(&SettingsError::RollbackFailed);
    assert_eq!(
        (error.code, category, notify),
        ("settings_update_failed", "settings_update_failed", false)
    );
    assert_eq!(
        error.message,
        "Settings could not be saved. Existing settings remain active."
    );
}

#[test]
fn feedback_texts_carry_no_payload() {
    assert_eq!(
        notification_message(Notification::MultipleQrFound(3)),
        "Found 3 QR codes; no automatic action taken"
    );
    assert_eq!(notification_message(Notification::NoQrFound), "No QR code found");
    assert_eq!(
        feedback_tooltip(Notification::TextCopied),
        "QRForge — QR text copied"
    );
}

#[test]
fn configured_display_availability() {
    let monitor = MonitorInfo::new(
        "display-a".parse().expect("id"),
        "A".to_owned(),
        0,
        0,
        1,
        1,
        100,
        0,
        true,
    )
    .expect("monitor");
    let present: MonitorId = "display-a".parse().expect("id");
    let missing: MonitorId = "display-b".parse().expect("id");
    assert!(configured_monitor_available(None, &[]));
    assert!(configured_monitor_available(Some(&present), std::slice::from_ref(&monitor)));
    assert!(!configured_monitor_available(Some(&missing), std::slice::from_ref(&monitor)));
}
