use qrforge::capture::CapturedFrame;
use qrforge::detection::{Detection, Point, QrFormat};
use qrforge::monitor::{MonitorId, MonitorInfo};
use qrforge::payload::SafeHttpUrl;
use qrforge::ports::{
    BrowserPort, CaptureOutput, CapturePort, ClipboardPort, ClockPort, DecoderPort, Notification,
    NotificationPort, PortError,
};
use qrforge::scan::{elapsed_ms, FailureStage, ScanOutcome, ScanPorts, ScanService};
use qrforge::settings::AppSettings;
use qrforge::settings_state::SettingsState;
use std::sync::{Arc, Mutex};

#[derive(Default)]
struct Calls {
    browser: Mutex<Vec<String>>,
    clipboard: Mutex<Vec<String>>,
    notifications: Mutex<Vec<Notification>>,
}

struct FixedCapture;

impl CapturePort for FixedCapture {
    fn monitors(&self) -> Result<Vec<MonitorInfo>, PortError> {
        Ok(vec![test_monitor()])
    }

    fn capture(&self, _requested: Option<&MonitorId>) -> Result<CaptureOutput, PortError> {
        Ok(CaptureOutput {
            frame: CapturedFrame::rgba8(1, 1, vec![255; 4])
                .map_err(|error| PortError::new("capture", &error.to_string()))?,
            monitor: test_monitor(),
            used_fallback: false,
        })
    }
}

fn test_monitor() -> MonitorInfo {
    MonitorInfo::new(
        "display-test".parse().expect("monitor id"),
        "Test display".to_owned(),
        0,
        0,
        1,
        1,
        100,
        0,
        true,
    )
    .expect("monitor")
}

struct FixedDecoder(Vec<Detection>);

impl DecoderPort for FixedDecoder {
    fn decode(&self, _frame: &CapturedFrame) -> Result<Vec<Detection>, PortError> {
        Ok(self.0.clone())
    }
}

impl BrowserPort for Calls {
    fn open(&self, url: &SafeHttpUrl) -> Result<(), PortError> {
        self.browser
            .lock()
            .expect("browser mutex")
            .push(url.as_str().to_owned());
        Ok(())
    }
}

impl ClipboardPort for Calls {
    fn set_text(&self, text: &str) -> Result<(), PortError> {
        self.clipboard
            .lock()
            .expect("clipboard mutex")
            .push(text.to_owned());
        Ok(())
    }
}

impl NotificationPort for Calls {
    fn notify(&self, notification: Notification) -> Result<(), PortError> {
        self.notifications
            .lock()
            .expect("notifications mutex")
            .push(notification);
        Ok(())
    }
}

struct StepClock(Mutex<u128>);

impl ClockPort for StepClock {
    fn now(&self) -> u128 {
        let mut value = self.0.lock().expect("clock mutex");
        *value += 1_000_000;
        *value
    }
}

fn detection(payload: &[u8]) -> Detection {
    Detection::new(payload.to_vec(), QrFormat::QrCode, [Point { x: 0, y: 0 }; 4])
}

type TestScan = ScanService<FixedCapture, FixedDecoder, Calls, Calls, Calls, StepClock>;

fn service(detections: Vec<Detection>, calls: Arc<Calls>) -> TestScan {
    service_with_settings(detections, calls, AppSettings::default())
}

fn service_with_settings(
    detections: Vec<Detection>,
    calls: Arc<Calls>,
    settings: AppSettings,
) -> TestScan {
    ScanService::new(
        ScanPorts {
            capture: Arc::new(FixedCapture),
            decoder: Arc::new(FixedDecoder(detections)),
            browser: calls.clone(),
            clipboard: calls.clone(),
            notifications: calls,
            clock: Arc::new(StepClock(Mutex::new(0))),
        },
        SettingsState::new(settings),
    )
}

#[test]
fn orchestrates_capture_decode_and_safe_url_policy() {
    let calls = Arc::new(Calls::default());
    let report = service(
        vec![detection(b"https://example.com/qrforge")],
        calls.clone(),
    )
    .scan();
    assert_eq!(report.outcome, ScanOutcome::UrlOpened);
    assert_eq!(report.metrics.detection_count, 1);
    assert_eq!(calls.browser.lock().expect("browser mutex").len(), 1);
    assert!(calls.clipboard.lock().expect("clipboard mutex").is_empty());
}

#[test]
fn plain_text_is_copied_and_never_opened() {
    let calls = Arc::new(Calls::default());
    let report = service(vec![detection(b"private plain text")], calls.clone()).scan();
    assert_eq!(report.outcome, ScanOutcome::TextCopied);
    assert!(calls.browser.lock().expect("browser mutex").is_empty());
    assert_eq!(
        calls.clipboard.lock().expect("clipboard mutex").as_slice(),
        ["private plain text"]
    );
}

#[test]
fn control_sequences_are_neither_copied_nor_opened() {
    let calls = Arc::new(Calls::default());
    let report = service(vec![detection(b"first line\r\nsecond line")], calls.clone()).scan();
    assert_eq!(report.outcome, ScanOutcome::UnsupportedPayload);
    assert!(calls.browser.lock().expect("browser mutex").is_empty());
    assert!(calls.clipboard.lock().expect("clipboard mutex").is_empty());
}

#[test]
fn blocked_scheme_is_copied_but_never_opened() {
    let calls = Arc::new(Calls::default());
    let report = service(vec![detection(b"javascript:alert(1)")], calls.clone()).scan();
    assert_eq!(report.outcome, ScanOutcome::BlockedPayloadCopied);
    assert!(calls.browser.lock().expect("browser mutex").is_empty());
    assert_eq!(
        calls.clipboard.lock().expect("clipboard mutex").as_slice(),
        ["javascript:alert(1)"]
    );
}

#[test]
fn spoofable_http_url_is_copied_but_never_opened() {
    let calls = Arc::new(Calls::default());
    let report = service(
        vec![detection(b"https://trusted.example@evil.example/")],
        calls.clone(),
    )
    .scan();
    assert_eq!(report.outcome, ScanOutcome::BlockedPayloadCopied);
    assert!(calls.browser.lock().expect("browser mutex").is_empty());
    assert_eq!(
        calls.clipboard.lock().expect("clipboard mutex").as_slice(),
        ["https://trusted.example@evil.example/"]
    );
}

#[test]
fn multiple_results_never_trigger_browser_or_clipboard() {
    let calls = Arc::new(Calls::default());
    let report = service(
        vec![
            detection(b"https://example.com/one"),
            detection(b"https://example.com/two"),
        ],
        calls.clone(),
    )
    .scan();
    assert_eq!(report.outcome, ScanOutcome::MultipleCodes { count: 2 });
    assert!(calls.browser.lock().expect("browser mutex").is_empty());
    assert!(calls.clipboard.lock().expect("clipboard mutex").is_empty());
}

#[test]
fn no_result_has_explicit_feedback() {
    let calls = Arc::new(Calls::default());
    let report = service(Vec::new(), calls.clone()).scan();
    assert_eq!(report.outcome, ScanOutcome::NoCode);
    assert_eq!(
        calls
            .notifications
            .lock()
            .expect("notifications mutex")
            .as_slice(),
        [Notification::NoQrFound]
    );
}

struct FallbackCapture;

impl CapturePort for FallbackCapture {
    fn monitors(&self) -> Result<Vec<MonitorInfo>, PortError> {
        Ok(vec![test_monitor()])
    }

    fn capture(&self, requested: Option<&MonitorId>) -> Result<CaptureOutput, PortError> {
        assert_eq!(
            requested.map(MonitorId::as_str),
            Some("disconnected-display")
        );
        Ok(CaptureOutput {
            frame: CapturedFrame::rgba8(1, 1, vec![255; 4])
                .map_err(|error| PortError::new("capture", &error.to_string()))?,
            monitor: test_monitor(),
            used_fallback: true,
        })
    }
}

#[test]
fn disconnected_monitor_falls_back_with_explicit_feedback_and_metadata() {
    let calls = Arc::new(Calls::default());
    let scan = ScanService::new(
        ScanPorts {
            capture: Arc::new(FallbackCapture),
            decoder: Arc::new(FixedDecoder(Vec::new())),
            browser: calls.clone(),
            clipboard: calls.clone(),
            notifications: calls.clone(),
            clock: Arc::new(StepClock(Mutex::new(0))),
        },
        SettingsState::new(AppSettings {
            scan_monitor_id: Some("disconnected-display".parse().expect("monitor id")),
            ..AppSettings::default()
        }),
    );

    let report = scan.scan();
    assert_eq!(report.outcome, ScanOutcome::NoCode);
    assert_eq!(
        report
            .capture_metadata
            .as_ref()
            .and_then(|metadata| metadata.monitor_label.as_deref()),
        Some("Test display")
    );
    assert_eq!(
        calls
            .notifications
            .lock()
            .expect("notifications mutex")
            .as_slice(),
        [
            Notification::SelectedMonitorUnavailable,
            Notification::NoQrFound
        ]
    );
}

struct FailingCapture;

impl CapturePort for FailingCapture {
    fn monitors(&self) -> Result<Vec<MonitorInfo>, PortError> {
        Ok(vec![test_monitor()])
    }

    fn capture(&self, _requested: Option<&MonitorId>) -> Result<CaptureOutput, PortError> {
        Err(PortError::new(
            "capture_selected_monitor",
            "sensitive operating-system detail",
        ))
    }
}

struct FailingDecoder;

impl DecoderPort for FailingDecoder {
    fn decode(&self, _frame: &CapturedFrame) -> Result<Vec<Detection>, PortError> {
        Err(PortError::new(
            "decode_qr",
            "sensitive decoder implementation detail",
        ))
    }
}

#[test]
fn capture_and_decoder_failures_have_distinct_payload_free_feedback() {
    for (capture, decoder, outcome, notification) in [
        (
            Arc::new(FailingCapture) as Arc<dyn CapturePort>,
            Arc::new(FixedDecoder(Vec::new())) as Arc<dyn DecoderPort>,
            ScanOutcome::Failed {
                stage: FailureStage::Capture,
            },
            Notification::CaptureFailed,
        ),
        (
            Arc::new(FixedCapture) as Arc<dyn CapturePort>,
            Arc::new(FailingDecoder) as Arc<dyn DecoderPort>,
            ScanOutcome::Failed {
                stage: FailureStage::Decode,
            },
            Notification::DecoderFailed,
        ),
    ] {
        let calls = Arc::new(Calls::default());
        let scan = ScanService::new(
            ScanPorts {
                capture,
                decoder,
                browser: calls.clone(),
                clipboard: calls.clone(),
                notifications: calls.clone(),
                clock: Arc::new(StepClock(Mutex::new(0))),
            },
            SettingsState::new(AppSettings::default()),
        );
        let report = scan.scan();
        assert_eq!(report.outcome, outcome);
        assert_eq!(
            calls
                .notifications
                .lock()
                .expect("notifications mutex")
                .as_slice(),
            [notification]
        );
    }
}

#[test]
fn auto_open_disabled_detects_safe_url_without_opening_or_clipboard() {
    let calls = Arc::new(Calls::default());
    let report = service_with_settings(
        vec![detection(b"https://example.com/qrforge")],
        calls.clone(),
        AppSettings {
            auto_open_safe_urls: false,
            ..AppSettings::default()
        },
    )
    .scan();
    assert_eq!(report.outcome, ScanOutcome::UrlDetected);
    assert!(calls.browser.lock().expect("browser mutex").is_empty());
    assert!(calls.clipboard.lock().expect("clipboard mutex").is_empty());
}

#[test]
fn clipboard_disabled_treats_plain_text_as_unsupported() {
    let calls = Arc::new(Calls::default());
    let report = service_with_settings(
        vec![detection(b"private plain text")],
        calls.clone(),
        AppSettings {
            copy_non_url_payloads: false,
            ..AppSettings::default()
        },
    )
    .scan();
    assert_eq!(report.outcome, ScanOutcome::UnsupportedPayload);
    assert!(calls.browser.lock().expect("browser mutex").is_empty());
    assert!(calls.clipboard.lock().expect("clipboard mutex").is_empty());
}

#[test]
fn notifications_disabled_suppresses_feedback() {
    let calls = Arc::new(Calls::default());
    let report = service_with_settings(
        Vec::new(),
        calls.clone(),
        AppSettings {
            notifications_enabled: false,
            ..AppSettings::default()
        },
    )
    .scan();
    assert_eq!(report.outcome, ScanOutcome::NoCode);
    assert!(calls
        .notifications
        .lock()
        .expect("notifications mutex")
        .is_empty());
}

#[test]
fn unicode_payload_is_classified_as_plain_text() {
    let calls = Arc::new(Calls::default());
    let report = service(vec![detection("héllo 🌍 wörld".as_bytes())], calls.clone()).scan();
    assert_eq!(report.outcome, ScanOutcome::TextCopied);
    assert_eq!(
        calls.clipboard.lock().expect("clipboard mutex").as_slice(),
        ["héllo 🌍 wörld"]
    );
    assert!(calls.browser.lock().expect("browser mutex").is_empty());
}

#[test]
fn malformed_url_like_text_has_a_distinct_outcome() {
    let calls = Arc::new(Calls::default());
    let report = service(vec![detection(b"http:///missing-host")], calls.clone()).scan();
    assert_eq!(report.outcome, ScanOutcome::MalformedTextCopied);
    assert!(calls.browser.lock().expect("browser mutex").is_empty());
    assert_eq!(
        calls.clipboard.lock().expect("clipboard mutex").as_slice(),
        ["http:///missing-host"]
    );
}

#[test]
fn blocked_and_malformed_payloads_are_only_reported_when_copying_is_off() {
    for (payload, expected) in [
        (&b"javascript:alert(1)"[..], ScanOutcome::BlockedPayloadDetected),
        (&b"http:///missing-host"[..], ScanOutcome::MalformedTextDetected),
    ] {
        let calls = Arc::new(Calls::default());
        let report = service_with_settings(
            vec![detection(payload)],
            calls.clone(),
            AppSettings {
                copy_non_url_payloads: false,
                ..AppSettings::default()
            },
        )
        .scan();
        assert_eq!(report.outcome, expected);
        assert!(calls.clipboard.lock().expect("clipboard mutex").is_empty());
        assert!(calls.browser.lock().expect("browser mutex").is_empty());
    }
}

#[test]
fn metrics_and_metadata_of_a_completed_scan() {
    let calls = Arc::new(Calls::default());
    let report = service(
        vec![detection(b"one"), detection(b"two"), detection(b"three")],
        calls.clone(),
    )
    .scan();
    assert_eq!(report.outcome, ScanOutcome::MultipleCodes { count: 3 });
    assert_eq!(report.result_items.len(), 3);
    assert_eq!(report.metrics.detection_count, 3);
    assert_eq!(report.metrics.capture_ms, 1);
    assert_eq!(report.metrics.decode_ms, 1);
    assert_eq!(report.metrics.total_ms, 5);
    let metadata = report.capture_metadata.expect("metadata");
    assert_eq!(metadata.scale_factor_percent, Some(100));
    assert_eq!((metadata.pixel_width, metadata.pixel_height), (1, 1));
    assert_eq!(
        calls
            .notifications
            .lock()
            .expect("notifications mutex")
            .as_slice(),
        [Notification::MultipleQrFound(3)]
    );
}

#[test]
fn duplicate_activation_reports_without_metrics() {
    let calls = Arc::new(Calls::default());
    let scan = service(Vec::new(), calls.clone());
    let report = scan.already_in_progress();
    assert_eq!(report.outcome, ScanOutcome::AlreadyInProgress);
    assert_eq!(report.metrics.total_ms, 0);
    assert!(report.capture_metadata.is_none());
    assert_eq!(
        calls
            .notifications
            .lock()
            .expect("notifications mutex")
            .as_slice(),
        [Notification::ScanAlreadyInProgress]
    );
}

#[test]
fn elapsed_milliseconds_saturate_and_never_go_negative() {
    assert_eq!(elapsed_ms(1_000_000, 3_500_000), 2);
    assert_eq!(elapsed_ms(5_000_000, 1_000_000), 0);
    assert_eq!(elapsed_ms(0, u128::MAX), u64::MAX);
}
