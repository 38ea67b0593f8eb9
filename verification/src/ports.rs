//! Replaceable adapter contracts used by the QRForge use cases.
use crate::capture::CapturedFrame;
use crate::detection::Detection;
use crate::hotkey::Hotkey;
use crate::monitor::{MonitorId, MonitorInfo};
use crate::payload::SafeHttpUrl;
use crate::settings::AppSettings;
use vstd::prelude::*;

verus! {

/// A sanitized adapter failure. Payload content must never be placed in this value.
#[derive(Clone, Debug, PartialEq, Eq)]
pub struct PortError {
    operation: &'static str,
    detail: String,
}

/// How an adapter failure reads: `operation failed: detail`.
pub open spec fn port_error_text(e: PortError) -> Seq<char> {
    e.spec_operation() + " failed: "@ + e.spec_detail()
}

impl PortError {
    pub closed spec fn spec_operation(&self) -> Seq<char> {
        self.operation@
    }

    pub closed spec fn spec_detail(&self) -> Seq<char> {
        self.detail@
    }

    /// Creates an adapter error with a non-sensitive operation and detail.
    pub fn new(operation: &'static str, detail: &str) -> (r: Self)
        ensures
            r.spec_operation() == operation@,
            r.spec_detail() == detail@,
    {
        Self { operation, detail: String::from_str(detail) }
    }

    /// Returns the stable operation identifier.
    pub fn operation(&self) -> (r: &'static str)
        ensures
            r@ == self.spec_operation(),
    {
        self.operation
    }

    /// The failure as text: the operation, then the detail.
    pub fn to_string(&self) -> (r: String)
        ensures
            r@ == port_error_text(*self),
    {
        let mut s = String::from_str(self.operation);
        s.append(" failed: ");
        s.append(self.detail.as_str());
        s
    }

    /// Returns the non-sensitive failure detail.
    pub fn detail(&self) -> (r: &str)
        ensures
            r@ == self.spec_detail(),
    {
        self.detail.as_str()
    }
}

/// A captured frame together with the display it came from.
#[derive(Debug)]
pub struct CaptureOutput {
    /// Captured pixels.
    pub frame: CapturedFrame,
    /// Display that was captured.
    pub monitor: MonitorInfo,
    /// Whether the requested display was unavailable and another was captured.
    pub used_fallback: bool,
}

/// Enumerates displays and captures one of them into memory.
pub trait CapturePort: Send + Sync {
    /// Returns the current display topology.
    fn monitors(&self) -> Result<Vec<MonitorInfo>, PortError>;

    /// Performs exactly one capture of the requested display, or of the primary one.
    fn capture(&self, requested: Option<&MonitorId>) -> Result<CaptureOutput, PortError>;
}

/// Decodes QR-family symbols from a borrowed in-memory frame.
pub trait DecoderPort: Send + Sync {
    /// Returns every valid QR-family detection found in the frame.
    fn decode(&self, frame: &CapturedFrame) -> Result<Vec<Detection>, PortError>;
}

/// Opens only a domain-validated HTTP(S) URL.
pub trait BrowserPort: Send + Sync {
    /// Delegates a safe URL to the operating system's default browser.
    fn open(&self, url: &SafeHttpUrl) -> Result<(), PortError>;
}

/// Writes user-approved text to the system clipboard.
pub trait ClipboardPort: Send + Sync {
    /// Replaces clipboard text without interpreting it.
    fn set_text(&self, text: &str) -> Result<(), PortError>;
}

/// Non-sensitive user feedback emitted by application policy.
#[derive(Clone, Copy, Debug, PartialEq, Eq, Structural)]
pub enum Notification {
    /// One safe URL was opened.
    QrOpened,
    /// Plain text was copied.
    TextCopied,
    /// A blocked URL-like payload was copied but not opened.
    BlockedPayloadCopied,
    /// A blocked URL-like payload was detected while copying is disabled.
    BlockedPayloadDetected,
    /// Malformed HTTP-like text was copied but not opened.
    MalformedPayloadCopied,
    /// Malformed HTTP-like text was detected while copying is disabled.
    MalformedPayloadDetected,
    /// No QR-family symbol was found.
    NoQrFound,
    /// More than one symbol was found and automatic action was suppressed.
    MultipleQrFound(usize),
    /// A previous scan still owns the single-scan lock.
    ScanAlreadyInProgress,
    /// The configured global hotkey could not be registered.
    HotkeyConflict,
    /// A binary or otherwise unsupported payload was detected.
    UnsupportedPayload,
    /// A safe URL was detected while automatic opening was disabled.
    SafeUrlNotOpened,
    /// The configured display was unavailable and another one was captured.
    SelectedMonitorUnavailable,
    /// Screen capture failed.
    CaptureFailed,
    /// QR decoding failed.
    DecoderFailed,
    /// The default browser could not be launched.
    BrowserFailed,
    /// The clipboard could not be written.
    ClipboardFailed,
    /// The scan could not be completed.
    ScanFailed,
}

/// Delivers native or tray feedback without including QR payloads.
pub trait NotificationPort: Send + Sync {
    /// Shows one non-sensitive feedback event.
    fn notify(&self, notification: Notification) -> Result<(), PortError>;
}

/// Monotonic clock used for metrics and deterministic tests.
pub trait ClockPort: Send + Sync {
    /// Returns elapsed monotonic time in nanoseconds since an adapter-defined origin.
    fn now(&self) -> u128;
}

/// Persists the complete validated settings document atomically.
pub trait SettingsRepository: Send + Sync {
    /// Loads settings with schema migration and per-field fallback.
    fn load(&self) -> Result<AppSettings, PortError>;

    /// Atomically replaces the stored document.
    fn save(&self, settings: &AppSettings) -> Result<(), PortError>;
}

/// Owns the active operating-system global hotkey registration.
pub trait HotkeyPort: Send + Sync {
    /// Returns the currently registered hotkey, if registration succeeded.
    fn active(&self) -> Option<Hotkey>;

    /// Replaces the registration, restoring the previous hotkey on failure.
    fn replace(&self, requested: &Hotkey) -> Result<(), PortError>;
}

/// Controls launch-at-sign-in behavior.
pub trait StartupPort: Send + Sync {
    /// Returns the current operating-system registration state.
    fn is_enabled(&self) -> Result<bool, PortError>;

    /// Enables or disables launch at sign-in.
    fn set_enabled(&self, enabled: bool) -> Result<(), PortError>;
}

} // verus!
