//! The one-shot capture, decode and payload-policy use case.
use crate::detection::Detection;
use crate::payload::{classify_payload, classify_spec, PayloadClass, PayloadView, SafeHttpUrl};
use crate::capture::CapturedFrame;
use crate::ports::{
    BrowserPort, CaptureOutput, CapturePort, ClipboardPort, ClockPort, DecoderPort,
    Notification, NotificationPort, PortError,
};
use crate::results::{classified_spec, classify_results, ClassifiedResult};
use crate::settings::SettingsModel;
use crate::settings_state::SettingsState;
use std::sync::atomic::{AtomicBool, Ordering};
use std::sync::Arc;
use vstd::prelude::*;

verus! {

/// Concrete port set required by the one-shot scan use case.
pub struct ScanPorts<
    Cap: ?Sized + CapturePort,
    Dec: ?Sized + DecoderPort,
    Br: ?Sized + BrowserPort,
    Cl: ?Sized + ClipboardPort,
    No: ?Sized + NotificationPort,
    Ck: ?Sized + ClockPort,
> {
    /// Screen capture adapter.
    pub capture: Arc<Cap>,
    /// Offline QR decoder adapter.
    pub decoder: Arc<Dec>,
    /// Default-browser adapter.
    pub browser: Arc<Br>,
    /// Text clipboard adapter.
    pub clipboard: Arc<Cl>,
    /// Native/tray feedback adapter.
    pub notifications: Arc<No>,
    /// Monotonic clock adapter.
    pub clock: Arc<Ck>,
}

/// Stage at which a one-shot scan failed.
#[derive(Clone, Copy, Debug, PartialEq, Eq, Structural)]
pub enum FailureStage {
    /// Screen capture.
    Capture,
    /// QR decoding.
    Decode,
    /// Default browser launch.
    Browser,
    /// Clipboard update.
    Clipboard,
}

/// Non-sensitive result of a scan.
#[derive(Clone, Copy, Debug, PartialEq, Eq, Structural)]
pub enum ScanOutcome {
    /// A scan request was rejected because one is already active.
    AlreadyInProgress,
    /// No QR-family symbol was found.
    NoCode,
    /// Multiple symbols were found and no automatic action occurred.
    MultipleCodes {
        /// Number of valid detections.
        count: usize,
    },
    /// One validated HTTP(S) URL was opened.
    UrlOpened,
    /// One safe URL was found, but automatic opening is disabled.
    UrlDetected,
    /// One plain-text payload was copied.
    TextCopied,
    /// One URL-like payload with a blocked scheme or authority was copied but not opened.
    BlockedPayloadCopied,
    /// A blocked URL-like payload was detected but copying is disabled.
    BlockedPayloadDetected,
    /// Malformed HTTP-like text was copied but never opened.
    MalformedTextCopied,
    /// Malformed HTTP-like text was detected but copying is disabled.
    MalformedTextDetected,
    /// Binary or disabled-copy content was left untouched.
    UnsupportedPayload,
    /// An adapter failed.
    Failed {
        /// Non-sensitive failing stage.
        stage: FailureStage,
    },
}

/// Timing information for a completed scan request.
#[derive(Clone, Copy, Debug, PartialEq, Eq, Structural)]
pub struct ScanMetrics {
    /// Capture duration in milliseconds.
    pub capture_ms: u64,
    /// Decoder duration in milliseconds.
    pub decode_ms: u64,
    /// Total use-case duration in milliseconds.
    pub total_ms: u64,
    /// Count of valid QR-family detections.
    pub detection_count: usize,
}

impl Default for ScanMetrics {
    fn default() -> (r: Self)
        ensures
            r == (ScanMetrics { capture_ms: 0, decode_ms: 0, total_ms: 0, detection_count: 0 }),
    {
        ScanMetrics { capture_ms: 0, decode_ms: 0, total_ms: 0, detection_count: 0 }
    }
}

/// Lightweight capture metadata for diagnostics (no pixel data).
#[derive(Clone, Debug, PartialEq, Eq)]
pub struct CaptureMetadata {
    /// Human-readable monitor identifier.
    pub monitor_label: Option<String>,
    /// Display scaling factor as a percentage (e.g. 100, 125, 200).
    pub scale_factor_percent: Option<u32>,
    /// Captured image width in physical pixels.
    pub pixel_width: u32,
    /// Captured image height in physical pixels.
    pub pixel_height: u32,
}

/// What a scan exchanged with its ports, as plain values: the display the capture port
/// was asked for and its answer, the frame the decoder was handed and its answer, the
/// browser or clipboard call of the single-result policy with whether it succeeded, the
/// notifications delivered, and the clock readings, each in order.
pub struct ScanExchange {
    pub capture: Option<(Option<Seq<char>>, Result<CaptureOutput, PortError>)>,
    pub decode: Option<(CapturedFrame, Result<Vec<Detection>, PortError>)>,
    pub policy_call: Option<(CallView, bool)>,
    pub notifications: Seq<Notification>,
    pub clock: Seq<u128>,
}

/// Outcome and measurements for diagnostics that never include payload bytes.
pub struct ScanReport {
    /// Policy outcome.
    pub outcome: ScanOutcome,
    /// Non-sensitive timing data.
    pub metrics: ScanMetrics,
    /// Optional capture metadata for diagnostics (monitor, scaling).
    pub capture_metadata: Option<CaptureMetadata>,
    /// Native-only result data published to the chooser for multi-code scans.
    pub result_items: Vec<ClassifiedResult>,
    /// The scan's exchange with its ports; ghost, so absent from compiled code.
    pub exchange: Ghost<ScanExchange>,
}

/// Whole milliseconds between two clock readings in nanoseconds, zero when the clock
/// went backwards and saturated at `u64::MAX`.
pub open spec fn elapsed_ms_spec(start: u128, end: u128) -> u64 {
    let d = if end >= start {
        (end - start) / 1_000_000
    } else {
        0
    };
    if d > u64::MAX {
        u64::MAX
    } else {
        d as u64
    }
}

pub fn elapsed_ms(start: u128, end: u128) -> (r: u64)
    ensures
        r == elapsed_ms_spec(start, end),
{
    let d = end.saturating_sub(start) / 1_000_000;
    if d > u64::MAX as u128 {
        u64::MAX
    } else {
        d as u64
    }
}

/// A timing in whole milliseconds: zero when the clock went backwards; otherwise the
/// nanoseconds elapsed rounded down to a millisecond, saturating at `u64::MAX`.
pub proof fn lemma_elapsed_ms_rounds_down(start: u128, end: u128)
    ensures
        end < start ==> elapsed_ms_spec(start, end) == 0,
        (end >= start && (end - start) / 1_000_000 <= u64::MAX) ==> (elapsed_ms_spec(start, end)
            * 1_000_000 <= end - start < (elapsed_ms_spec(start, end) + 1) * 1_000_000),
        (end >= start && (end - start) / 1_000_000 > u64::MAX) ==> elapsed_ms_spec(start, end)
            == u64::MAX,
{
    if end >= start {
        let d: int = end - start;
        assert(d / 1_000_000 * 1_000_000 <= d < (d / 1_000_000 + 1) * 1_000_000) by (nonlinear_arith);
    }
}

/// Whether the single-result policy calls the browser or clipboard port for this class.
pub open spec fn single_uses_port(auto_open: bool, copy: bool, c: PayloadView) -> bool {
    match c {
        PayloadView::SafeUrl { .. } => auto_open,
        PayloadView::PlainText(_) => copy,
        PayloadView::MalformedUrl(_) => copy,
        PayloadView::BlockedScheme { .. } => copy,
        PayloadView::BlockedUrl(_) => copy,
        PayloadView::UnsafeText => false,
        PayloadView::Binary => false,
    }
}

/// Outcome and feedback of the single-result policy, given whether the port call, if the
/// policy makes one, succeeded.
pub open spec fn single_policy(auto_open: bool, copy: bool, c: PayloadView, port_ok: bool) -> (
    ScanOutcome,
    Notification,
) {
    let browser_failed = (
        ScanOutcome::Failed { stage: FailureStage::Browser },
        Notification::BrowserFailed,
    );
    let clipboard_failed = (
        ScanOutcome::Failed { stage: FailureStage::Clipboard },
        Notification::ClipboardFailed,
    );
    match c {
        PayloadView::SafeUrl { .. } => if !auto_open {
            (ScanOutcome::UrlDetected, Notification::SafeUrlNotOpened)
        } else if port_ok {
            (ScanOutcome::UrlOpened, Notification::QrOpened)
        } else {
            browser_failed
        },
        PayloadView::PlainText(_) => if !copy {
            (ScanOutcome::UnsupportedPayload, Notification::UnsupportedPayload)
        } else if port_ok {
            (ScanOutcome::TextCopied, Notification::TextCopied)
        } else {
            clipboard_failed
        },
        PayloadView::MalformedUrl(_) => if !copy {
            (ScanOutcome::MalformedTextDetected, Notification::MalformedPayloadDetected)
        } else if port_ok {
            (ScanOutcome::MalformedTextCopied, Notification::MalformedPayloadCopied)
        } else {
            clipboard_failed
        },
        PayloadView::BlockedScheme { .. } => if !copy {
            (ScanOutcome::BlockedPayloadDetected, Notification::BlockedPayloadDetected)
        } else if port_ok {
            (ScanOutcome::BlockedPayloadCopied, Notification::BlockedPayloadCopied)
        } else {
            clipboard_failed
        },
        PayloadView::BlockedUrl(_) => if !copy {
            (ScanOutcome::BlockedPayloadDetected, Notification::BlockedPayloadDetected)
        } else if port_ok {
            (ScanOutcome::BlockedPayloadCopied, Notification::BlockedPayloadCopied)
        } else {
            clipboard_failed
        },
        PayloadView::UnsafeText => (ScanOutcome::UnsupportedPayload, Notification::UnsupportedPayload),
        PayloadView::Binary => (ScanOutcome::UnsupportedPayload, Notification::UnsupportedPayload),
    }
}

/// The single-result outcome names what the payload was, and its notification names the
/// outcome: a blocked payload is only ever reported as blocked (detected when copying is
/// off, copied when the copy succeeded, a clipboard failure otherwise), malformed text
/// only as malformed, a safe URL only as opened or detected, plain text only as copied or
/// unsupported; a failed port call fails its own stage.
pub proof fn lemma_single_outcome_names_payload(auto_open: bool, copy: bool, c: PayloadView, port_ok: bool)
    ensures
        ({
            let (o, n) = single_policy(auto_open, copy, c, port_ok);
            &&& (o is BlockedPayloadDetected || o is BlockedPayloadCopied) ==> (c is BlockedUrl
                || c is BlockedScheme)
            &&& (o is MalformedTextDetected || o is MalformedTextCopied) ==> (c is MalformedUrl)
            &&& (o is UrlOpened || o is UrlDetected) ==> (c is SafeUrl)
            &&& o is TextCopied ==> (c is PlainText)
            &&& (c is BlockedUrl || c is BlockedScheme) ==> ((!copy && o is BlockedPayloadDetected)
                || (copy && port_ok && o is BlockedPayloadCopied) || (copy && !port_ok && o
                == (ScanOutcome::Failed { stage: FailureStage::Clipboard })))
            &&& (c is MalformedUrl) ==> ((!copy && o is MalformedTextDetected) || (copy && port_ok
                && o is MalformedTextCopied) || (copy && !port_ok && o == (ScanOutcome::Failed { stage: FailureStage::Clipboard })))
            &&& (c is PlainText) ==> ((!copy && o is UnsupportedPayload) || (copy && port_ok
                && o is TextCopied) || (copy && !port_ok && o == (ScanOutcome::Failed { stage: FailureStage::Clipboard })))
            &&& (c is SafeUrl) ==> ((!auto_open && o is UrlDetected) || (auto_open && port_ok
                && o is UrlOpened) || (auto_open && !port_ok && o == (ScanOutcome::Failed { stage: FailureStage::Browser })))
            &&& (c is UnsafeText || c is Binary) ==> (o is UnsupportedPayload)
            &&& o is BlockedPayloadDetected ==> (n is BlockedPayloadDetected)
            &&& o is BlockedPayloadCopied ==> (n is BlockedPayloadCopied)
            &&& o is MalformedTextDetected ==> (n is MalformedPayloadDetected)
            &&& o is MalformedTextCopied ==> (n is MalformedPayloadCopied)
            &&& o is UrlOpened ==> (n is QrOpened)
            &&& o is UrlDetected ==> (n is SafeUrlNotOpened)
            &&& o is TextCopied ==> (n is TextCopied)
            &&& o is UnsupportedPayload ==> (n is UnsupportedPayload)
            &&& o == (ScanOutcome::Failed { stage: FailureStage::Browser }) ==> (n is BrowserFailed)
            &&& o == (ScanOutcome::Failed { stage: FailureStage::Clipboard }) ==> (n is ClipboardFailed)
        }),
{
}

/// What any scan outcome promises about the settings that allowed it.
pub open spec fn outcome_respects_settings(s: SettingsModel, outcome: ScanOutcome) -> bool {
    &&& outcome is UrlOpened ==> s.auto_open_safe_urls
    &&& outcome is UrlDetected ==> !s.auto_open_safe_urls
    &&& (outcome is TextCopied || outcome is BlockedPayloadCopied || outcome is MalformedTextCopied)
        ==> s.copy_non_url_payloads
    &&& (outcome is BlockedPayloadDetected || outcome is MalformedTextDetected)
        ==> !s.copy_non_url_payloads
    &&& (outcome matches ScanOutcome::Failed { stage } && stage is Browser) ==> s.auto_open_safe_urls
    &&& (outcome matches ScanOutcome::Failed { stage } && stage is Clipboard)
        ==> s.copy_non_url_payloads
}

/// The notifications delivered for one feedback event: none when notifications are off.
pub open spec fn delivered(s: SettingsModel, n: Notification) -> Seq<Notification> {
    if s.notifications_enabled {
        seq![n]
    } else {
        Seq::empty()
    }
}

/// The single-result policy on one payload under these settings: the port call it makes
/// is the one `single_call_spec` decides (none for unsafe text, binary payloads, or a
/// disabled action), and its outcome and feedback follow from whether that call succeeded.
pub open spec fn single_step(
    s: SettingsModel,
    bytes: Seq<u8>,
    call: Option<(CallView, bool)>,
    outcome: ScanOutcome,
    notes: Seq<Notification>,
) -> bool {
    let c = classify_spec(bytes);
    let planned = single_call_spec(s.auto_open_safe_urls, s.copy_non_url_payloads, c);
    let ok = match call {
        Some((_, ok)) => ok,
        None => true,
    };
    let (o, n) = single_policy(s.auto_open_safe_urls, s.copy_non_url_payloads, c, ok);
    &&& planned is Nothing ==> call is None
    &&& !(planned is Nothing) ==> (call matches Some((v, _)) && v == planned)
    &&& outcome == o
    &&& notes == delivered(s, n)
}

/// The payload policy on the decoded detections: none reports no code, one goes through
/// the single-result policy, several are classified for the chooser; only the single
/// result may call the browser or clipboard.
pub open spec fn policy_step(
    s: SettingsModel,
    detections: Seq<Detection>,
    outcome: ScanOutcome,
    items: Seq<ClassifiedResult>,
    call: Option<(CallView, bool)>,
    notes: Seq<Notification>,
) -> bool {
    if detections.len() == 0 {
        &&& outcome is NoCode
        &&& items.len() == 0
        &&& call is None
        &&& notes == delivered(s, Notification::NoQrFound)
    } else if detections.len() == 1 {
        &&& single_step(s, detections[0].raw_bytes@, call, outcome, notes)
        &&& items.len() == 0
    } else {
        &&& outcome == (ScanOutcome::MultipleCodes { count: detections.len() as usize })
        &&& items.len() == detections.len()
        &&& forall|i: int|
            0 <= i < items.len() ==> classified_spec(
                #[trigger] items[i],
                i as usize,
                detections[i].raw_bytes@,
            )
        &&& call is None
        &&& notes == delivered(s, Notification::MultipleQrFound(detections.len() as usize))
    }
}

/// A scan that ran: the capture port is asked for the configured display; a capture
/// error fails the capture stage; otherwise the decoder gets the captured frame, a
/// decoder error fails the decode stage, and the decoded detections go through the
/// payload policy. A failed stage reports its notification, no metadata and no items;
/// a fallback capture is reported before anything that follows. The timings are
/// measured between the recorded clock readings.
pub open spec fn scan_follows(s: SettingsModel, x: ScanExchange, r: ScanReport) -> bool {
    &&& x.capture matches Some((requested, _))
    &&& requested == s.scan_monitor_id
    &&& x.clock.len() >= 3
    &&& r.metrics.total_ms == elapsed_ms_spec(x.clock[0], x.clock.last())
    &&& match x.capture {
        Some((_, answer)) => match capture_step(answer) {
            Err(stage) => {
                &&& r.outcome == (ScanOutcome::Failed { stage })
                &&& r.capture_metadata is None
                &&& r.result_items.len() == 0
                &&& r.metrics.capture_ms == 0 && r.metrics.decode_ms == 0
                &&& r.metrics.detection_count == 0
                &&& x.decode is None
                &&& x.policy_call is None
                &&& x.notifications == delivered(s, failure_note(stage))
                &&& x.clock.len() == 3
            },
            Ok((frame, metadata, fallback)) => {
                let before = match fallback {
                    Some(n) => delivered(s, n),
                    None => Seq::empty(),
                };
                &&& x.decode matches Some((handed, _))
                &&& handed == frame
                &&& x.notifications.len() >= before.len()
                &&& x.notifications.take(before.len() as int) == before
                &&& match x.decode {
                    Some((_, Err(_))) => {
                        &&& r.outcome == (ScanOutcome::Failed { stage: FailureStage::Decode })
                        &&& r.capture_metadata is None
                        &&& r.result_items.len() == 0
                        &&& r.metrics.capture_ms == 0 && r.metrics.decode_ms == 0
                        &&& r.metrics.detection_count == 0
                        &&& x.policy_call is None
                        &&& x.notifications == before + delivered(s, Notification::DecoderFailed)
                        &&& x.clock.len() == 5
                    },
                    Some((_, Ok(detections))) => {
                        &&& r.capture_metadata == Some(metadata)
                        &&& r.metrics.detection_count == detections.len()
                        &&& x.clock.len() == 6
                        &&& r.metrics.capture_ms == elapsed_ms_spec(x.clock[1], x.clock[2])
                        &&& r.metrics.decode_ms == elapsed_ms_spec(x.clock[3], x.clock[4])
                        &&& policy_step(
                            s,
                            detections@,
                            r.outcome,
                            r.result_items@,
                            x.policy_call,
                            x.notifications.skip(before.len() as int),
                        )
                    },
                    None => false,
                }
            },
        },
        None => false,
    }
}

/// The exchange of a scan refused because another one runs: only its notification.
pub open spec fn refused_exchange(s: SettingsModel) -> ScanExchange {
    ScanExchange {
        capture: None,
        decode: None,
        policy_call: None,
        notifications: delivered(s, Notification::ScanAlreadyInProgress),
        clock: Seq::empty(),
    }
}

/// Every outcome of the single-result policy respects the settings: nothing is opened or
/// copied against them.
pub proof fn lemma_single_step_respects_settings(
    s: SettingsModel,
    bytes: Seq<u8>,
    call: Option<(CallView, bool)>,
    outcome: ScanOutcome,
    notes: Seq<Notification>,
)
    requires
        single_step(s, bytes, call, outcome, notes),
    ensures
        outcome_respects_settings(s, outcome),
{
}

/// Thread-safe one-shot capture, decode, and payload-policy orchestrator.
pub struct ScanService<
    Cap: ?Sized + CapturePort,
    Dec: ?Sized + DecoderPort,
    Br: ?Sized + BrowserPort,
    Cl: ?Sized + ClipboardPort,
    No: ?Sized + NotificationPort,
    Ck: ?Sized + ClockPort,
> {
    ports: ScanPorts<Cap, Dec, Br, Cl, No, Ck>,
    settings: SettingsState,
    in_progress: AtomicBool,
}

impl<
    Cap: ?Sized + CapturePort,
    Dec: ?Sized + DecoderPort,
    Br: ?Sized + BrowserPort,
    Cl: ?Sized + ClipboardPort,
    No: ?Sized + NotificationPort,
    Ck: ?Sized + ClockPort,
> ScanService<Cap, Dec, Br, Cl, No, Ck> {
    /// The settings the scan policy reads.
    pub closed spec fn current_settings(&self) -> SettingsModel {
        self.settings.current()
    }

    /// Creates a scan service with replaceable adapters.
    pub fn new(ports: ScanPorts<Cap, Dec, Br, Cl, No, Ck>, settings: SettingsState) -> (r: Self)
        ensures
            r.current_settings() == settings.current(),
    {
        Self { ports, settings, in_progress: AtomicBool::new(false) }
    }

    /// Replaces the settings read by later scans.
    pub fn set_settings(&mut self, settings: SettingsState)
        ensures
            final(self).current_settings() == settings.current(),
    {
        self.settings = settings;
    }

    /// Executes a single scan. Callers should invoke this off UI and hotkey threads.
    /// A scan requested while another one runs is rejected with `AlreadyInProgress`.
    pub fn scan(&self) -> (r: ScanReport)
        ensures
            r.outcome is AlreadyInProgress ==> (r.metrics == (ScanMetrics {
                capture_ms: 0,
                decode_ms: 0,
                total_ms: 0,
                detection_count: 0,
            }) && r.capture_metadata is None && r.result_items.len() == 0 && r.exchange@
                == refused_exchange(self.current_settings())),
            !(r.outcome is AlreadyInProgress) ==> scan_follows(self.current_settings(), r.exchange@, r),
            outcome_respects_settings(self.current_settings(), r.outcome),
    {
        if self.in_progress.compare_exchange(false, true, Ordering::AcqRel, Ordering::Acquire).is_err() {
            return self.already_in_progress();
        }
        let report = self.run_scan();
        self.in_progress.store(false, Ordering::Release);
        report
    }

    /// Runs capture, decode and policy once; the caller holds the single-scan lock.
    fn run_scan(&self) -> (r: ScanReport)
        ensures
            !(r.outcome is AlreadyInProgress),
            scan_follows(self.current_settings(), r.exchange@, r),
            outcome_respects_settings(self.current_settings(), r.outcome),
    {
        let started = self.ports.clock.now();
        let capture_started = self.ports.clock.now();
        let requested = match &self.settings.settings().scan_monitor_id {
            Some(id) => Some(id),
            None => None,
        };
        let captured = self.ports.capture.capture(requested);
        let ghost capture = (
            match requested {
                Some(id) => Some(id@),
                None => None,
            },
            captured,
        );
        let (frame, metadata, fallback) = match after_capture(captured) {
            Ok(step) => step,
            Err(stage) => {
                let so_far = Ghost(
                    ScanExchange {
                        capture: Some(capture),
                        decode: None,
                        policy_call: None,
                        notifications: Seq::empty(),
                        clock: seq![started, capture_started],
                    },
                );
                let report = self.failed(started, stage, so_far);
                proof {
                    assert(report.exchange@.clock =~= seq![started, capture_started, report.exchange@.clock.last()]);
                    assert(report.exchange@.notifications =~= delivered(self.current_settings(), failure_note(stage)));
                }
                return report;
            },
        };
        let capture_ended = self.ports.clock.now();
        let capture_ms = elapsed_ms(capture_started, capture_ended);
        let fallback_notes = match fallback {
            Some(n) => self.feedback(n),
            None => Ghost(Seq::empty()),
        };
        let decode_started = self.ports.clock.now();
        let decoded = self.ports.decoder.decode(&frame);
        let ghost decode = (frame, decoded);
        let detections = match after_decode(decoded) {
            Ok(d) => d,
            Err(stage) => {
                let so_far = Ghost(
                    ScanExchange {
                        capture: Some(capture),
                        decode: Some(decode),
                        policy_call: None,
                        notifications: fallback_notes@,
                        clock: seq![started, capture_started, capture_ended, decode_started],
                    },
                );
                let report = self.failed(started, stage, so_far);
                proof {
                    assert(report.exchange@.notifications.take(fallback_notes@.len() as int) =~= fallback_notes@);
                }
                return report;
            },
        };
        let decode_ended = self.ports.clock.now();
        let decode_ms = elapsed_ms(decode_started, decode_ended);
        let detection_count = detections.len();
        let (outcome, result_items, call, notes) = self.apply_policy(detections.as_slice());
        proof {
            if detection_count == 1 {
                lemma_single_step_respects_settings(
                    self.current_settings(),
                    detections@[0].raw_bytes@,
                    call@,
                    outcome,
                    notes@,
                );
            }
        }
        let ended = self.ports.clock.now();
        let total_ms = elapsed_ms(started, ended);
        let exchange = Ghost(
            ScanExchange {
                capture: Some(capture),
                decode: Some(decode),
                policy_call: call@,
                notifications: fallback_notes@ + notes@,
                clock: seq![started, capture_started, capture_ended, decode_started, decode_ended, ended],
            },
        );
        proof {
            assert(exchange@.notifications.take(fallback_notes@.len() as int) =~= fallback_notes@);
            assert(exchange@.notifications.skip(fallback_notes@.len() as int) =~= notes@);
        }
        ScanReport {
            outcome,
            metrics: ScanMetrics { capture_ms, decode_ms, total_ms, detection_count },
            capture_metadata: Some(metadata),
            result_items,
            exchange,
        }
    }

    /// Reports a duplicate activation rejected before a worker was created.
    pub fn already_in_progress(&self) -> (r: ScanReport)
        ensures
            r.outcome is AlreadyInProgress,
            r.metrics == (ScanMetrics { capture_ms: 0, decode_ms: 0, total_ms: 0, detection_count: 0 }),
            r.capture_metadata is None,
            r.result_items.len() == 0,
            r.exchange@ == refused_exchange(self.current_settings()),
    {
        let notes = self.feedback(Notification::ScanAlreadyInProgress);
        ScanReport {
            outcome: ScanOutcome::AlreadyInProgress,
            metrics: ScanMetrics::default(),
            capture_metadata: None,
            result_items: Vec::new(),
            exchange: Ghost(
                ScanExchange {
                    capture: None,
                    decode: None,
                    policy_call: None,
                    notifications: notes@,
                    clock: Seq::empty(),
                },
            ),
        }
    }

    /// Applies the payload policy to the decoded detections: none reports no code, one is
    /// handled by the single-result policy, several are classified for the chooser and
    /// nothing is opened or copied. Returns the outcome, the classified items, the port
    /// call made with whether it succeeded, and the notifications delivered.
    fn apply_policy(&self, detections: &[Detection]) -> (r: (
        ScanOutcome,
        Vec<ClassifiedResult>,
        Ghost<Option<(CallView, bool)>>,
        Ghost<Seq<Notification>>,
    ))
        ensures
            policy_step(self.current_settings(), detections@, r.0, r.1@, r.2@, r.3@),
    {
        let note = count_notification(detections.len());
        if detections.len() == 1 {
            let (outcome, call, notes) = self.apply_single_policy(&detections[0]);
            return (outcome, Vec::new(), call, notes);
        }
        let notes = match note {
            Some(n) => self.feedback(n),
            None => Ghost(Seq::empty()),
        };
        if detections.len() == 0 {
            (ScanOutcome::NoCode, Vec::new(), Ghost(None), notes)
        } else {
            (
                ScanOutcome::MultipleCodes { count: detections.len() },
                classify_results(detections),
                Ghost(None),
                notes,
            )
        }
    }

    /// Applies the single-result policy: opens a safe URL when automatic opening is on,
    /// copies other text, exactly as decoded, when copying is on, and otherwise only
    /// reports. Returns the outcome, the port call made with whether it succeeded, and
    /// the notifications delivered.
    fn apply_single_policy(&self, detection: &Detection) -> (r: (
        ScanOutcome,
        Ghost<Option<(CallView, bool)>>,
        Ghost<Seq<Notification>>,
    ))
        ensures
            single_step(self.current_settings(), detection.raw_bytes@, r.1@, r.0, r.2@),
    {
        let settings = self.settings.settings();
        let auto_open = settings.auto_open_safe_urls;
        let copy = settings.copy_non_url_payloads;
        let class = classify_payload(detection.raw_bytes.as_slice());
        let call = single_call(auto_open, copy, &class);
        let (port_ok, made) = match &call {
            PolicyCall::Open(url) => {
                let ok = self.ports.browser.open(url).is_ok();
                (ok, Ghost(Some((CallView::Open(url@), ok))))
            },
            PolicyCall::Copy(text) => {
                let handed = text.as_str();
                let ok = self.ports.clipboard.set_text(handed).is_ok();
                (ok, Ghost(Some((CallView::Copy(handed@), ok))))
            },
            PolicyCall::Nothing => (true, Ghost(None)),
        };
        let (outcome, note) = single_result(auto_open, copy, &class, port_ok);
        let notes = self.feedback(note);
        (outcome, made, notes)
    }

    fn failed(&self, started: u128, stage: FailureStage, so_far: Ghost<ScanExchange>) -> (r: ScanReport)
        ensures
            r.outcome == (ScanOutcome::Failed { stage }),
            r.metrics.capture_ms == 0 && r.metrics.decode_ms == 0 && r.metrics.detection_count
                == 0,
            r.capture_metadata is None,
            r.result_items.len() == 0,
            r.exchange@.capture == so_far@.capture,
            r.exchange@.decode == so_far@.decode,
            r.exchange@.policy_call == so_far@.policy_call,
            r.exchange@.notifications == so_far@.notifications + delivered(
                self.current_settings(),
                failure_note(stage),
            ),
            r.exchange@.clock == so_far@.clock.push(r.exchange@.clock.last()),
            r.metrics.total_ms == elapsed_ms_spec(started, r.exchange@.clock.last()),
    {
        let notes = self.feedback(failure_notification(stage));
        let ended = self.ports.clock.now();
        let total_ms = elapsed_ms(started, ended);
        ScanReport {
            outcome: ScanOutcome::Failed { stage },
            metrics: ScanMetrics { capture_ms: 0, decode_ms: 0, total_ms, detection_count: 0 },
            capture_metadata: None,
            result_items: Vec::new(),
            exchange: Ghost(
                ScanExchange {
                    capture: so_far@.capture,
                    decode: so_far@.decode,
                    policy_call: so_far@.policy_call,
                    notifications: so_far@.notifications + notes@,
                    clock: so_far@.clock.push(ended),
                },
            ),
        }
    }

    /// Shows one feedback event when notifications are enabled; returns what was delivered.
    fn feedback(&self, notification: Notification) -> (r: Ghost<Seq<Notification>>)
        ensures
            r@ == delivered(self.current_settings(), notification),
    {
        let shown = delivered_feedback(self.settings.settings().notifications_enabled, notification);
        if let Some(n) = shown {
            let _ = self.ports.notifications.notify(n);
        }
        Ghost(
            match shown {
                Some(n) => seq![n],
                None => Seq::empty(),
            },
        )
    }
}

/// The port call the single-result policy makes.
#[derive(Clone, Debug, PartialEq, Eq)]
pub enum PolicyCall {
    /// Open this approved URL in the default browser.
    Open(SafeHttpUrl),
    /// Put this text on the clipboard.
    Copy(String),
    /// Call no port.
    Nothing,
}

/// A policy call as plain values.
pub enum CallView {
    Open((Seq<char>, Seq<char>, Seq<char>)),
    Copy(Seq<char>),
    Nothing,
}

impl View for PolicyCall {
    type V = CallView;

    open spec fn view(&self) -> CallView {
        match self {
            PolicyCall::Open(url) => CallView::Open(url@),
            PolicyCall::Copy(text) => CallView::Copy(text@),
            PolicyCall::Nothing => CallView::Nothing,
        }
    }
}

/// The port call for one classified payload: a safe URL is opened only when automatic
/// opening is on; plain, blocked and malformed text is copied, exactly as decoded, only
/// when copying is on; unsafe text and binary payloads call no port.
pub open spec fn single_call_spec(auto_open: bool, copy: bool, c: PayloadView) -> CallView {
    match c {
        PayloadView::SafeUrl { normalized, identity, scheme } => if auto_open {
            CallView::Open((normalized, identity, scheme))
        } else {
            CallView::Nothing
        },
        PayloadView::PlainText(t) => if copy {
            CallView::Copy(t)
        } else {
            CallView::Nothing
        },
        PayloadView::MalformedUrl(t) => if copy {
            CallView::Copy(t)
        } else {
            CallView::Nothing
        },
        PayloadView::BlockedScheme { text, .. } => if copy {
            CallView::Copy(text)
        } else {
            CallView::Nothing
        },
        PayloadView::BlockedUrl(t) => if copy {
            CallView::Copy(t)
        } else {
            CallView::Nothing
        },
        PayloadView::UnsafeText => CallView::Nothing,
        PayloadView::Binary => CallView::Nothing,
    }
}

/// Decides the port call of the single-result policy.
pub fn single_call(auto_open: bool, copy: bool, class: &PayloadClass) -> (r: PolicyCall)
    ensures
        r@ == single_call_spec(auto_open, copy, class@),
        !(r is Nothing) == single_uses_port(auto_open, copy, class@),
{
    match class {
        PayloadClass::SafeUrl(url) => if auto_open {
            PolicyCall::Open(url.duplicate())
        } else {
            PolicyCall::Nothing
        },
        PayloadClass::PlainText(text) => if copy {
            PolicyCall::Copy(text.clone())
        } else {
            PolicyCall::Nothing
        },
        PayloadClass::MalformedUrl { text } => if copy {
            PolicyCall::Copy(text.clone())
        } else {
            PolicyCall::Nothing
        },
        PayloadClass::BlockedScheme { text, .. } => if copy {
            PolicyCall::Copy(text.clone())
        } else {
            PolicyCall::Nothing
        },
        PayloadClass::BlockedUrl { text } => if copy {
            PolicyCall::Copy(text.clone())
        } else {
            PolicyCall::Nothing
        },
        PayloadClass::UnsafeText => PolicyCall::Nothing,
        PayloadClass::Binary => PolicyCall::Nothing,
    }
}

/// The diagnostics metadata of a capture: the display's label and scale and the frame's
/// size, never its pixels.
pub open spec fn metadata_of(c: CaptureOutput) -> CaptureMetadata {
    CaptureMetadata {
        monitor_label: Some(c.monitor.label),
        scale_factor_percent: Some(c.monitor.scale_factor_percent),
        pixel_width: c.frame.spec_width(),
        pixel_height: c.frame.spec_height(),
    }
}

/// What a scan goes on with once the capture port answered: the frame, its metadata and,
/// when another display than the requested one was captured, the fallback notice. A
/// capture error fails the scan at the capture stage.
pub open spec fn capture_step(capture: Result<CaptureOutput, PortError>) -> Result<
    (CapturedFrame, CaptureMetadata, Option<Notification>),
    FailureStage,
> {
    match capture {
        Ok(c) => Ok(
            (
                c.frame,
                metadata_of(c),
                if c.used_fallback {
                    Some(Notification::SelectedMonitorUnavailable)
                } else {
                    None
                },
            ),
        ),
        Err(_) => Err(FailureStage::Capture),
    }
}

/// Takes the capture port's answer apart for the rest of the scan.
pub fn after_capture(capture: Result<CaptureOutput, PortError>) -> (r: Result<
    (CapturedFrame, CaptureMetadata, Option<Notification>),
    FailureStage,
>)
    ensures
        r == capture_step(capture),
{
    match capture {
        Ok(c) => {
            let metadata = CaptureMetadata {
                monitor_label: Some(c.monitor.label),
                scale_factor_percent: Some(c.monitor.scale_factor_percent),
                pixel_width: c.frame.width(),
                pixel_height: c.frame.height(),
            };
            let fallback = if c.used_fallback {
                Some(Notification::SelectedMonitorUnavailable)
            } else {
                None
            };
            Ok((c.frame, metadata, fallback))
        },
        Err(_) => Err(FailureStage::Capture),
    }
}

/// The detections a scan goes on with once the decoder port answered; a decoder error
/// fails the scan at the decode stage.
pub fn after_decode(decoded: Result<Vec<Detection>, PortError>) -> (r: Result<
    Vec<Detection>,
    FailureStage,
>)
    ensures
        decoded is Ok ==> r == Ok::<Vec<Detection>, FailureStage>(decoded->Ok_0),
        decoded is Err ==> r == Err::<Vec<Detection>, FailureStage>(FailureStage::Decode),
{
    match decoded {
        Ok(d) => Ok(d),
        Err(_) => Err(FailureStage::Decode),
    }
}

/// The notification that a failed stage is reported with.
pub open spec fn failure_note(stage: FailureStage) -> Notification {
    match stage {
        FailureStage::Capture => Notification::CaptureFailed,
        FailureStage::Decode => Notification::DecoderFailed,
        FailureStage::Browser => Notification::BrowserFailed,
        FailureStage::Clipboard => Notification::ClipboardFailed,
    }
}

/// The notification a failed stage is reported with.
pub fn failure_notification(stage: FailureStage) -> (r: Notification)
    ensures
        r == failure_note(stage),
{
    match stage {
        FailureStage::Capture => Notification::CaptureFailed,
        FailureStage::Decode => Notification::DecoderFailed,
        FailureStage::Browser => Notification::BrowserFailed,
        FailureStage::Clipboard => Notification::ClipboardFailed,
    }
}

/// The notification for the number of detections when it is not one: none found, or
/// several found with no automatic action.
pub fn count_notification(count: usize) -> (r: Option<Notification>)
    ensures
        count == 0 ==> r == Some(Notification::NoQrFound),
        count == 1 ==> r is None,
        count >= 2 ==> r == Some(Notification::MultipleQrFound(count)),
{
    if count == 0 {
        Some(Notification::NoQrFound)
    } else if count == 1 {
        None
    } else {
        Some(Notification::MultipleQrFound(count))
    }
}

/// Feedback is delivered only when notifications are enabled.
pub fn delivered_feedback(notifications_enabled: bool, notification: Notification) -> (r: Option<
    Notification,
>)
    ensures
        r == (if notifications_enabled {
            Some(notification)
        } else {
            None
        }),
{
    if notifications_enabled {
        Some(notification)
    } else {
        None
    }
}

/// Outcome and feedback of the single-result policy for a classified payload.
pub fn single_result(auto_open: bool, copy: bool, class: &PayloadClass, port_ok: bool) -> (r: (
    ScanOutcome,
    Notification,
))
    ensures
        r == single_policy(auto_open, copy, class@, port_ok),
{
    let browser_failed = (
        ScanOutcome::Failed { stage: FailureStage::Browser },
        Notification::BrowserFailed,
    );
    let clipboard_failed = (
        ScanOutcome::Failed { stage: FailureStage::Clipboard },
        Notification::ClipboardFailed,
    );
    match class {
        PayloadClass::SafeUrl(_) => if !auto_open {
            (ScanOutcome::UrlDetected, Notification::SafeUrlNotOpened)
        } else if port_ok {
            (ScanOutcome::UrlOpened, Notification::QrOpened)
        } else {
            browser_failed
        },
        PayloadClass::PlainText(_) => if !copy {
            (ScanOutcome::UnsupportedPayload, Notification::UnsupportedPayload)
        } else if port_ok {
            (ScanOutcome::TextCopied, Notification::TextCopied)
        } else {
            clipboard_failed
        },
        PayloadClass::MalformedUrl { .. } => if !copy {
            (ScanOutcome::MalformedTextDetected, Notification::MalformedPayloadDetected)
        } else if port_ok {
            (ScanOutcome::MalformedTextCopied, Notification::MalformedPayloadCopied)
        } else {
            clipboard_failed
        },
        PayloadClass::BlockedScheme { .. } => if !copy {
            (ScanOutcome::BlockedPayloadDetected, Notification::BlockedPayloadDetected)
        } else if port_ok {
            (ScanOutcome::BlockedPayloadCopied, Notification::BlockedPayloadCopied)
        } else {
            clipboard_failed
        },
        PayloadClass::BlockedUrl { .. } => if !copy {
            (ScanOutcome::BlockedPayloadDetected, Notification::BlockedPayloadDetected)
        } else if port_ok {
            (ScanOutcome::BlockedPayloadCopied, Notification::BlockedPayloadCopied)
        } else {
            clipboard_failed
        },
        PayloadClass::UnsafeText => (ScanOutcome::UnsupportedPayload, Notification::UnsupportedPayload),
        PayloadClass::Binary => (ScanOutcome::UnsupportedPayload, Notification::UnsupportedPayload),
    }
}

} // verus!
