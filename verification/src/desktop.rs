//! Host-side policy of the tray application: sanitized command errors, user feedback
//! text and display availability.
use crate::monitor::{MonitorId, MonitorInfo};
use crate::ports::{BrowserPort, ClipboardPort, Notification, PortError};
use crate::results::{ActionFailure, ResultActionError, ResultService};
use crate::settings_service::{SettingsError, SettingsSnapshot};
use crate::text::{decimal, push_decimal, str_eq};
use vstd::prelude::*;

verus! {

/// Sanitized typed IPC error.
#[derive(Clone, Copy, Debug, PartialEq, Eq)]
pub struct CommandError {
    /// Stable machine-readable code.
    pub code: &'static str,
    /// User-safe message that never contains QR payloads.
    pub message: &'static str,
}

/// Confirmation for an explicit privacy-safe diagnostics copy action.
#[derive(Clone, Copy, Debug, PartialEq, Eq)]
pub struct CopyDiagnosticsOutcome {
    /// User-safe status text.
    pub message: &'static str,
}

/// The code and message a chooser action failure is reported with.
pub open spec fn result_error_text(f: ActionFailure) -> (Seq<char>, Seq<char>) {
    match f {
        ActionFailure::StaleSession => (
            "stale_results"@,
            "These results were replaced or dismissed. Scan again to continue."@,
        ),
        ActionFailure::InvalidRequest => (
            "invalid_result_action"@,
            "The requested result action was invalid."@,
        ),
        ActionFailure::InvalidIndex => (
            "invalid_result_action"@,
            "The requested result action was invalid."@,
        ),
        ActionFailure::NotOpenable => (
            "result_not_openable"@,
            "Rust safety policy does not allow this result to be opened."@,
        ),
        ActionFailure::NotCopyable => (
            "result_not_copyable"@,
            "This result cannot be copied safely."@,
        ),
        ActionFailure::Browser(_) => ("browser_failed"@, "Windows could not open the approved link."@),
        ActionFailure::Clipboard(_) => ("clipboard_failed"@, "Windows could not update the clipboard."@),
    }
}

/// Maps a chooser action failure to a fixed code and message; adapter details are dropped.
pub fn result_error(error: &ResultActionError) -> (r: CommandError)
    ensures
        (r.code@, r.message@) == result_error_text(error@),
{
    match error {
        ResultActionError::StaleSession => CommandError {
            code: "stale_results",
            message: "These results were replaced or dismissed. Scan again to continue.",
        },
        ResultActionError::InvalidRequest | ResultActionError::InvalidIndex => CommandError {
            code: "invalid_result_action",
            message: "The requested result action was invalid.",
        },
        ResultActionError::NotOpenable => CommandError {
            code: "result_not_openable",
            message: "Rust safety policy does not allow this result to be opened.",
        },
        ResultActionError::NotCopyable => CommandError {
            code: "result_not_copyable",
            message: "This result cannot be copied safely.",
        },
        ResultActionError::Browser(_) => CommandError {
            code: "browser_failed",
            message: "Windows could not open the approved link.",
        },
        ResultActionError::Clipboard(_) => CommandError {
            code: "clipboard_failed",
            message: "Windows could not update the clipboard.",
        },
    }
}

/// How a refused settings update is reported: the command error, the diagnostics
/// category recorded, and whether the hotkey conflict notification is shown.
pub open spec fn settings_error_report(e: SettingsError) -> (Seq<char>, Seq<char>, Seq<char>, bool) {
    match e {
        SettingsError::InvalidHotkey(_) => (
            "invalid_hotkey"@,
            "Use a non-reserved shortcut with a modifier and one letter, digit, or F-key."@,
            "settings_invalid_hotkey"@,
            false,
        ),
        SettingsError::HotkeyRegistration(_) => (
            "hotkey_conflict"@,
            "That shortcut is already in use. The previous shortcut is still active."@,
            "hotkey_registration_failed"@,
            true,
        ),
        _ => (
            "settings_update_failed"@,
            "Settings could not be saved. Existing settings remain active."@,
            "settings_update_failed"@,
            false,
        ),
    }
}

/// Reports a refused settings update: the user-safe command error, the diagnostics
/// category to record, and whether to show the hotkey conflict notification.
pub fn settings_error(error: &SettingsError) -> (r: (CommandError, &'static str, bool))
    ensures
        (r.0.code@, r.0.message@, r.1@, r.2) == settings_error_report(*error),
{
    match error {
        SettingsError::InvalidHotkey(_) => (
            CommandError {
                code: "invalid_hotkey",
                message: "Use a non-reserved shortcut with a modifier and one letter, digit, or F-key.",
            },
            "settings_invalid_hotkey",
            false,
        ),
        SettingsError::HotkeyRegistration(_) => (
            CommandError {
                code: "hotkey_conflict",
                message: "That shortcut is already in use. The previous shortcut is still active.",
            },
            "hotkey_registration_failed",
            true,
        ),
        _ => (
            CommandError {
                code: "settings_update_failed",
                message: "Settings could not be saved. Existing settings remain active.",
            },
            "settings_update_failed",
            false,
        ),
    }
}

/// The error reported when first-run completion could not be saved.
pub fn onboarding_error() -> (r: CommandError)
    ensures
        r.code@ == "onboarding_save_failed"@,
        r.message@ == "QRForge could not save first-run completion. Please try again."@,
{
    CommandError {
        code: "onboarding_save_failed",
        message: "QRForge could not save first-run completion. Please try again.",
    }
}

/// The error reported when the chooser has no session to show.
pub fn results_unavailable_error() -> (r: CommandError)
    ensures
        r.code@ == "results_unavailable"@,
        r.message@ == "These scan results are no longer available. Scan again to refresh them."@,
{
    CommandError {
        code: "results_unavailable",
        message: "These scan results are no longer available. Scan again to refresh them.",
    }
}

/// The error reported when the diagnostics text could not be copied.
pub fn diagnostics_copy_error() -> (r: CommandError)
    ensures
        r.code@ == "diagnostics_copy_failed"@,
        r.message@ == "Windows could not copy the privacy-safe diagnostics."@,
{
    CommandError {
        code: "diagnostics_copy_failed",
        message: "Windows could not copy the privacy-safe diagnostics.",
    }
}

/// The confirmation of a diagnostics copy.
pub fn diagnostics_copied() -> (r: CopyDiagnosticsOutcome)
    ensures
        r.message@ == "Privacy-safe diagnostics copied."@,
{
    CopyDiagnosticsOutcome { message: "Privacy-safe diagnostics copied." }
}

/// Whether some display in the list has this identifier.
pub open spec fn has_monitor(monitors: Seq<MonitorInfo>, id: Seq<char>) -> bool {
    exists|i: int| 0 <= i < monitors.len() && (#[trigger] monitors[i]).id@ == id
}

/// Whether the configured display is present: always when none is configured.
pub fn configured_monitor_available(configured: Option<&MonitorId>, monitors: &[MonitorInfo]) -> (r: bool)
    ensures
        r == match configured {
            Some(id) => has_monitor(monitors@, id@),
            None => true,
        },
{
    match configured {
        None => true,
        Some(id) => {
            let mut i: usize = 0;
            while i < monitors.len()
                invariant
                    configured == Some(id),
                    i <= monitors.len(),
                    forall|j: int| 0 <= j < i ==> (#[trigger] monitors@[j]).id@ != id@,
                decreases monitors.len() - i,
            {
                if str_eq(monitors[i].id.as_str(), id.as_str()) {
                    assert((monitors@[i as int]).id@ == id@);
                    return true;
                }
                i = i + 1;
            }
            false
        },
    }
}

/// The tray tooltip when no scan feedback is showing.
pub open spec fn idle_tooltip_spec(active_hotkey: Option<Seq<char>>) -> Seq<char> {
    match active_hotkey {
        Some(h) => "QRForge \u{2014} press "@ + h + " to scan"@,
        None => "QRForge \u{2014} configure hotkey in Settings"@,
    }
}

/// The idle tray tooltip, naming the hotkey that is actually registered.
pub fn idle_tooltip(active_hotkey: Option<&str>) -> (r: String)
    ensures
        r@ == idle_tooltip_spec(
            match active_hotkey {
                Some(h) => Some(h@),
                None => None,
            },
        ),
{
    match active_hotkey {
        Some(h) => {
            let mut s = String::from_str("QRForge \u{2014} press ");
            s.append(h);
            s.append(" to scan");
            s
        },
        None => String::from_str("QRForge \u{2014} configure hotkey in Settings"),
    }
}

/// The text shown for a feedback event.
pub open spec fn notification_text(n: Notification) -> Seq<char> {
    match n {
        Notification::QrOpened => "QR link opened"@,
        Notification::TextCopied => "QR text copied"@,
        Notification::BlockedPayloadCopied => "Blocked link type copied; nothing was opened"@,
        Notification::BlockedPayloadDetected => "Blocked link type found; copying is disabled"@,
        Notification::MalformedPayloadCopied => "Malformed link text copied; nothing was opened"@,
        Notification::MalformedPayloadDetected => "Malformed link text found; copying is disabled"@,
        Notification::NoQrFound => "No QR code found"@,
        Notification::MultipleQrFound(count) => "Found "@ + decimal(count as nat)
            + " QR codes; no automatic action taken"@,
        Notification::ScanAlreadyInProgress => "A scan is already in progress"@,
        Notification::HotkeyConflict => "The scan hotkey is unavailable; choose another in Settings"@,
        Notification::UnsupportedPayload => "QR content is unsupported or copying is disabled"@,
        Notification::SafeUrlNotOpened => "A safe link was found; automatic opening is disabled"@,
        Notification::SelectedMonitorUnavailable => "The selected display is unavailable; the primary display was scanned"@,
        Notification::CaptureFailed => "The screen could not be captured"@,
        Notification::DecoderFailed => "QR decoding failed"@,
        Notification::BrowserFailed => "The browser could not be opened"@,
        Notification::ClipboardFailed => "The clipboard could not be updated"@,
        Notification::ScanFailed => "The scan could not be completed"@,
    }
}

/// The user-facing text of a feedback event; it never contains payload data.
pub fn notification_message(notification: Notification) -> (r: String)
    ensures
        r@ == notification_text(notification),
{
    match notification {
        Notification::QrOpened => String::from_str("QR link opened"),
        Notification::TextCopied => String::from_str("QR text copied"),
        Notification::BlockedPayloadCopied => String::from_str("Blocked link type copied; nothing was opened"),
        Notification::BlockedPayloadDetected => String::from_str("Blocked link type found; copying is disabled"),
        Notification::MalformedPayloadCopied => String::from_str("Malformed link text copied; nothing was opened"),
        Notification::MalformedPayloadDetected => String::from_str("Malformed link text found; copying is disabled"),
        Notification::NoQrFound => String::from_str("No QR code found"),
        Notification::MultipleQrFound(count) => {
            let mut s = String::from_str("Found ");
            push_decimal(&mut s, count as u64);
            s.append(" QR codes; no automatic action taken");
            s
        },
        Notification::ScanAlreadyInProgress => String::from_str("A scan is already in progress"),
        Notification::HotkeyConflict => String::from_str("The scan hotkey is unavailable; choose another in Settings"),
        Notification::UnsupportedPayload => String::from_str("QR content is unsupported or copying is disabled"),
        Notification::SafeUrlNotOpened => String::from_str("A safe link was found; automatic opening is disabled"),
        Notification::SelectedMonitorUnavailable => String::from_str(
            "The selected display is unavailable; the primary display was scanned",
        ),
        Notification::CaptureFailed => String::from_str("The screen could not be captured"),
        Notification::DecoderFailed => String::from_str("QR decoding failed"),
        Notification::BrowserFailed => String::from_str("The browser could not be opened"),
        Notification::ClipboardFailed => String::from_str("The clipboard could not be updated"),
        Notification::ScanFailed => String::from_str("The scan could not be completed"),
    }
}

/// The tray tooltip while a feedback event is showing.
pub fn feedback_tooltip(notification: Notification) -> (r: String)
    ensures
        r@ == "QRForge \u{2014} "@ + notification_text(notification),
{
    let mut s = String::from_str("QRForge \u{2014} ");
    let m = notification_message(notification);
    s.append(m.as_str());
    s
}

/// Discards the published chooser session when the chooser window could not be shown;
/// a newer session is left alone.
pub fn clear_results_if_chooser_unavailable<B: ?Sized + BrowserPort, C: ?Sized + ClipboardPort>(
    results: &mut ResultService<B, C>,
    session_id: u64,
    chooser_available: bool,
)
    ensures
        final(results).next_session_id() == old(results).next_session_id(),
        final(results).port_calls() == old(results).port_calls(),
        (!chooser_available && (old(results).session() matches Some(s) && s.0 == session_id))
            ==> final(results).session() is None,
        chooser_available || !(old(results).session() matches Some(s) && s.0 == session_id)
            ==> final(results).session() == old(results).session(),
{
    if !chooser_available {
        results.clear(Some(session_id));
    }
}

/// Admits at most one native scan worker at a time. Hosts that dispatch from several
/// threads keep it behind a lock.
#[derive(Debug, Default)]
pub struct WorkerGate {
    busy: bool,
}

impl WorkerGate {
    /// Whether a worker is admitted.
    pub closed spec fn is_busy(&self) -> bool {
        self.busy
    }

    /// A gate with no worker admitted.
    pub fn new() -> (r: Self)
        ensures
            !r.is_busy(),
    {
        WorkerGate { busy: false }
    }

    /// Admits a worker unless one is already running; `true` when admitted.
    pub fn try_acquire(&mut self) -> (r: bool)
        ensures
            r == !old(self).is_busy(),
            final(self).is_busy(),
    {
        if self.busy {
            false
        } else {
            self.busy = true;
            true
        }
    }

    /// Ends the admitted worker's turn.
    pub fn release(&mut self)
        ensures
            !final(self).is_busy(),
    {
        self.busy = false;
    }
}

/// Complete typed settings response consumed by the settings window.
#[derive(Debug)]
pub struct SettingsView {
    /// Validated settings and actual hotkey registration state.
    pub snapshot: SettingsSnapshot,
    /// Semantic application version.
    pub version: &'static str,
    /// Source commit embedded at compile time.
    pub commit: &'static str,
    /// Compile-time target identifier.
    pub build: String,
    /// Current native display topology.
    pub monitors: Vec<MonitorInfo>,
    /// Whether the configured display is present in the current topology.
    pub configured_monitor_available: bool,
    /// User-safe display enumeration error, if any.
    pub monitor_error: Option<&'static str>,
}

/// Assembles the settings window's view from a settings snapshot, the build facts and
/// the result of enumerating displays.
pub fn settings_view(
    snapshot: SettingsSnapshot,
    version: &'static str,
    commit: &'static str,
    os: &str,
    arch: &str,
    monitors: Result<Vec<MonitorInfo>, PortError>,
) -> (r: SettingsView)
    ensures
        r.snapshot == snapshot,
        r.version == version,
        r.commit == commit,
        r.build@ == os@ + "-"@ + arch@,
        monitors matches Ok(m) ==> (r.monitors@ == m@ && r.monitor_error is None),
        monitors is Err ==> r.monitors@.len() == 0,
        monitors is Err ==> (r.monitor_error matches Some(e) && e@
            == "Displays could not be refreshed."@),
        r.configured_monitor_available == match snapshot.settings.scan_monitor_id {
            Some(id) => has_monitor(r.monitors@, id@),
            None => true,
        },
{
    let (monitors, monitor_error) = match monitors {
        Ok(m) => (m, None),
        Err(_) => (Vec::new(), Some("Displays could not be refreshed.")),
    };
    let available = configured_monitor_available(snapshot.settings.scan_monitor_id.as_ref(), monitors.as_slice());
    let mut build = String::from_str(os);
    build.append("-");
    build.append(arch);
    SettingsView {
        snapshot,
        version,
        commit,
        build,
        monitors,
        configured_monitor_available: available,
        monitor_error,
    }
}

/// What the diagnostics snapshot reports of the displays: how many there are, whether
/// the configured one is present, and whether enumeration failed.
pub fn monitor_summary(configured: Option<&MonitorId>, monitors: &Result<Vec<MonitorInfo>, PortError>) -> (r: (
    usize,
    bool,
    bool,
))
    ensures
        monitors matches Ok(m) ==> r == (m.len(), match configured {
            Some(id) => has_monitor(m@, id@),
            None => true,
        }, false),
        monitors is Err ==> r == (0usize, configured is None, true),
{
    match monitors {
        Ok(m) => (m.len(), configured_monitor_available(configured, m.as_slice()), false),
        Err(_) => (0, configured.is_none(), true),
    }
}

/// What a tray menu entry asks for.
#[derive(Clone, Copy, Debug, PartialEq, Eq, Structural)]
pub enum TrayAction {
    /// Start a scan.
    Scan,
    /// Open the settings window.
    OpenSettings,
    /// Exit the host.
    Quit,
}

/// The action of a tray menu entry, by its identifier.
pub fn tray_action(id: &str) -> (r: Option<TrayAction>)
    ensures
        id@ == "scan-now"@ ==> r == Some(TrayAction::Scan),
        id@ == "open-settings"@ ==> r == Some(TrayAction::OpenSettings),
        id@ == "quit"@ ==> r == Some(TrayAction::Quit),
        id@ != "scan-now"@ && id@ != "open-settings"@ && id@ != "quit"@ ==> r is None,
{
    proof {
        reveal_strlit("scan-now");
        reveal_strlit("open-settings");
        reveal_strlit("quit");
        assert("scan-now"@[0] != "open-settings"@[0]);
        assert("scan-now"@.len() != "quit"@.len());
        assert("open-settings"@.len() != "quit"@.len());
    }
    if str_eq(id, "scan-now") {
        Some(TrayAction::Scan)
    } else if str_eq(id, "open-settings") {
        Some(TrayAction::OpenSettings)
    } else if str_eq(id, "quit") {
        Some(TrayAction::Quit)
    } else {
        None
    }
}

/// Feedback counts as delivered when either the native notification or the tray tooltip
/// showed it.
pub fn feedback_delivery(native_shown: bool, tray_shown: bool) -> (r: Result<(), PortError>)
    ensures
        (native_shown || tray_shown) <==> r is Ok,
        r matches Err(e) ==> (e.spec_operation() == "notification"@ && e.spec_detail()
            == "native and tray feedback were unavailable"@),
{
    if !native_shown && !tray_shown {
        Err(PortError::new("notification", "native and tray feedback were unavailable"))
    } else {
        Ok(())
    }
}

} // verus!
