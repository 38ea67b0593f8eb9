//! Payload-free diagnostics: recent error categories, the copyable support snapshot and
//! the bounded log's rotation rule.
use crate::scan::{FailureStage, ScanOutcome};
use crate::settings_service::SettingsSnapshot;
use crate::text::{chars_where, decimal, is_ascii_alphanumeric, push_char, push_decimal, str_eq};
use vstd::prelude::*;

verus! {

/// Most error categories kept for the snapshot.
pub const MAX_RECENT_ERRORS: usize = 8;

/// Most characters kept of an operating-system field.
pub const MAX_FIELD_CHARS: usize = 80;

/// Size bound of the active log file, in bytes.
pub const MAX_LOG_BYTES: u64 = 262144;

/// Inputs used to produce the user-copyable, privacy-safe diagnostic snapshot.
pub struct DiagnosticSnapshot<'a> {
    /// Current settings and actual hotkey registration state.
    pub settings: &'a SettingsSnapshot,
    /// Current number of enumerated displays.
    pub monitor_count: usize,
    /// Whether the configured display is currently present.
    pub configured_monitor_available: bool,
    /// Whether display enumeration failed.
    pub monitor_error: bool,
}

/// Build and process facts the host reports in the snapshot.
pub struct BuildInfo {
    /// Semantic application version.
    pub app_version: String,
    /// Source commit embedded at compile time.
    pub build_commit: String,
    /// Target operating system.
    pub os: String,
    /// Target architecture.
    pub arch: String,
    /// Sanitized operating-system release.
    pub windows_version: String,
    /// Process identifier.
    pub pid: u32,
    /// Whole seconds since the process started.
    pub uptime_seconds: u64,
}

/// The recent error categories after recording `category`: a repeat of the newest one is
/// ignored, and the oldest one is dropped to keep at most eight.
pub open spec fn record_spec(errors: Seq<Seq<char>>, category: Seq<char>) -> Seq<Seq<char>> {
    if errors.len() > 0 && errors.last() == category {
        errors
    } else if errors.len() >= MAX_RECENT_ERRORS {
        errors.drop_first().push(category)
    } else {
        errors.push(category)
    }
}

/// At most eight categories, and no category directly repeats its predecessor.
pub open spec fn recent_errors_bounded(errors: Seq<Seq<char>>) -> bool {
    &&& errors.len() <= MAX_RECENT_ERRORS
    &&& forall|i: int| 0 < i < errors.len() ==> #[trigger] errors[i] != errors[i - 1]
}

/// Recording keeps the recent error list bounded and free of direct repeats.
pub proof fn lemma_record_keeps_bounds(errors: Seq<Seq<char>>, category: Seq<char>)
    requires
        recent_errors_bounded(errors),
    ensures
        recent_errors_bounded(record_spec(errors, category)),
        record_spec(errors, category).len() > 0,
        record_spec(errors, category).last() == category,
{
    let r = record_spec(errors, category);
    if !(errors.len() > 0 && errors.last() == category) {
        if errors.len() >= MAX_RECENT_ERRORS {
            let d = errors.drop_first();
            assert forall|i: int| 0 < i < r.len() implies #[trigger] r[i] != r[i - 1] by {
                if i < r.len() - 1 {
                    assert(r[i] == errors[i + 1]);
                    assert(r[i - 1] == errors[i]);
                } else {
                    assert(r[i - 1] == errors.last());
                }
            }
        } else {
            assert forall|i: int| 0 < i < r.len() implies #[trigger] r[i] != r[i - 1] by {
                if i < r.len() - 1 {
                    assert(r[i] == errors[i]);
                    assert(r[i - 1] == errors[i - 1]);
                }
            }
        }
    }
}

/// The category recorded for a failed scan stage.
pub open spec fn failure_category(stage: FailureStage) -> Seq<char> {
    match stage {
        FailureStage::Capture => "scan_capture_failed"@,
        FailureStage::Decode => "scan_decode_failed"@,
        FailureStage::Browser => "browser_open_failed"@,
        FailureStage::Clipboard => "clipboard_write_failed"@,
    }
}

/// The categories joined with commas.
pub open spec fn join_commas(items: Seq<Seq<char>>) -> Seq<char>
    decreases items.len(),
{
    if items.len() == 0 {
        Seq::empty()
    } else if items.len() == 1 {
        items[0]
    } else {
        join_commas(items.drop_last()) + ","@ + items.last()
    }
}

/// `true` or `false`.
pub open spec fn flag_text(b: bool) -> Seq<char> {
    if b {
        "true"@
    } else {
        "false"@
    }
}

/// One `key=value` line.
pub open spec fn line(key: Seq<char>, value: Seq<char>) -> Seq<char> {
    key + value + "\n"@
}

/// The copyable support snapshot: fixed keys in a fixed order, no payloads, no paths,
/// no display names.
pub open spec fn snapshot_spec(
    errors: Seq<Seq<char>>,
    logging: bool,
    input: DiagnosticSnapshot,
    build: BuildInfo,
) -> Seq<char> {
    let settings = input.settings;
    "QRForge diagnostics\n"@ + "formatVersion=1\n"@ + line("appVersion="@, build.app_version@) + line(
        "buildCommit="@,
        build.build_commit@,
    ) + line("target="@, build.os@ + "-"@ + build.arch@) + line(
        "windowsVersion="@,
        build.windows_version@,
    ) + line("settingsSchema="@, decimal(settings.settings.schema_version as nat)) + line(
        "hotkeyRegistered="@,
        flag_text(settings.hotkey_registered),
    ) + line("startupConfigured="@, flag_text(settings.settings.launch_at_startup)) + line(
        "monitorSelection="@,
        if settings.settings.scan_monitor_id is Some {
            "configured"@
        } else {
            "automatic"@
        },
    ) + line("configuredMonitorAvailable="@, flag_text(input.configured_monitor_available)) + line(
        "monitorEnumeration="@,
        if input.monitor_error {
            "failed"@
        } else {
            "ok"@
        },
    ) + line("monitorCount="@, decimal(input.monitor_count as nat)) + "decoder=zxing-cpp-0.5.2\n"@
        + line(
        "diagnosticLogging="@,
        if logging {
            "enabled"@
        } else {
            "disabled"@
        },
    ) + "logLocation=QRForge app data\\diagnostics.jsonl\n"@
        + "logRetention=256KiB plus one archive\n"@ + line(
        "recentErrors="@,
        if errors.len() == 0 {
            "none"@
        } else {
            join_commas(errors)
        },
    ) + line("pid="@, decimal(build.pid as nat)) + line(
        "uptimeSeconds="@,
        decimal(build.uptime_seconds as nat),
    )
}

/// Appends one `key=value` line.
fn push_line(s: &mut String, key: &str, value: &str)
    ensures
        final(s)@ == old(s)@ + line(key@, value@),
{
    s.append(key);
    s.append(value);
    s.append("\n");
    assert(final(s)@ =~= old(s)@ + line(key@, value@));
}

/// Appends one `key=number` line.
fn push_number_line(s: &mut String, key: &str, value: u64)
    ensures
        final(s)@ == old(s)@ + line(key@, decimal(value as nat)),
{
    let mut v = String::new();
    push_decimal(&mut v, value);
    assert(v@ =~= decimal(value as nat));
    push_line(s, key, v.as_str());
}

/// Explicitly enabled, payload-free local diagnostics.
pub struct Diagnostics {
    logging_enabled: bool,
    recent_errors: Vec<&'static str>,
}

impl Diagnostics {
    /// The recent error categories, oldest first.
    pub closed spec fn recent(&self) -> Seq<Seq<char>> {
        self.recent_errors@.map_values(|c: &'static str| c@)
    }

    /// Whether the diagnostic log file is written.
    pub closed spec fn logging(&self) -> bool {
        self.logging_enabled
    }

    /// Diagnostics with no recorded errors.
    pub fn new(logging_enabled: bool) -> (r: Self)
        ensures
            r.recent() == Seq::<Seq<char>>::empty(),
            r.logging() == logging_enabled,
    {
        let r = Diagnostics { logging_enabled, recent_errors: Vec::new() };
        assert(r.recent() =~= Seq::<Seq<char>>::empty());
        r
    }

    /// Whether the diagnostic log file is written.
    pub fn logging_enabled(&self) -> (r: bool)
        ensures
            r == self.logging(),
    {
        self.logging_enabled
    }

    /// The recent error categories, oldest first.
    pub fn recent_errors(&self) -> (r: &[&'static str])
        ensures
            r@.map_values(|c: &'static str| c@) == self.recent(),
    {
        self.recent_errors.as_slice()
    }

    /// Records a stable error category for the current process only.
    pub fn record_error(&mut self, category: &'static str)
        ensures
            final(self).recent() == record_spec(old(self).recent(), category@),
            final(self).logging() == old(self).logging(),
    {
        let ghost before = self.recent();
        let n = self.recent_errors.len();
        if n > 0 && str_eq(self.recent_errors[n - 1], category) {
            return;
        }
        if n >= MAX_RECENT_ERRORS {
            self.recent_errors.remove(0);
        }
        self.recent_errors.push(category);
        proof {
            if n >= MAX_RECENT_ERRORS {
                assert(self.recent() =~= before.drop_first().push(category@));
            } else {
                assert(self.recent() =~= before.push(category@));
            }
        }
    }

    /// Records the failure category of a failed scan; other outcomes record nothing.
    pub fn record_scan_outcome(&mut self, outcome: ScanOutcome)
        ensures
            outcome matches ScanOutcome::Failed { stage } ==> final(self).recent() == record_spec(
                old(self).recent(),
                failure_category(stage),
            ),
            !(outcome is Failed) ==> final(self).recent() == old(self).recent(),
            final(self).logging() == old(self).logging(),
    {
        if let ScanOutcome::Failed { stage } = outcome {
            self.record_error(
                match stage {
                    FailureStage::Capture => "scan_capture_failed",
                    FailureStage::Decode => "scan_decode_failed",
                    FailureStage::Browser => "browser_open_failed",
                    FailureStage::Clipboard => "clipboard_write_failed",
                },
            );
        }
    }

    /// Builds fixed-order, privacy-safe text intended for the clipboard.
    pub fn snapshot_text(&self, input: &DiagnosticSnapshot, build: &BuildInfo) -> (r: String)
        ensures
            r@ == snapshot_spec(self.recent(), self.logging(), *input, *build),
    {
        let settings = input.settings;
        let mut s = String::from_str("QRForge diagnostics\n");
        s.append("formatVersion=1\n");
        push_line(&mut s, "appVersion=", build.app_version.as_str());
        push_line(&mut s, "buildCommit=", build.build_commit.as_str());
        let mut target = String::new();
        target.append(build.os.as_str());
        target.append("-");
        target.append(build.arch.as_str());
        push_line(&mut s, "target=", target.as_str());
        push_line(&mut s, "windowsVersion=", build.windows_version.as_str());
        push_number_line(&mut s, "settingsSchema=", settings.settings.schema_version as u64);
        push_line(&mut s, "hotkeyRegistered=", if settings.hotkey_registered { "true" } else { "false" });
        push_line(
            &mut s,
            "startupConfigured=",
            if settings.settings.launch_at_startup { "true" } else { "false" },
        );
        push_line(
            &mut s,
            "monitorSelection=",
            if settings.settings.scan_monitor_id.is_some() { "configured" } else { "automatic" },
        );
        push_line(
            &mut s,
            "configuredMonitorAvailable=",
            if input.configured_monitor_available { "true" } else { "false" },
        );
        push_line(&mut s, "monitorEnumeration=", if input.monitor_error { "failed" } else { "ok" });
        push_number_line(&mut s, "monitorCount=", input.monitor_count as u64);
        s.append("decoder=zxing-cpp-0.5.2\n");
        push_line(&mut s, "diagnosticLogging=", if self.logging_enabled { "enabled" } else { "disabled" });
        s.append("logLocation=QRForge app data\\diagnostics.jsonl\n");
        s.append("logRetention=256KiB plus one archive\n");
        let errors = self.joined_errors();
        push_line(&mut s, "recentErrors=", errors.as_str());
        push_number_line(&mut s, "pid=", build.pid as u64);
        push_number_line(&mut s, "uptimeSeconds=", build.uptime_seconds);
        s
    }

    /// The recent categories joined with commas, or `none`.
    fn joined_errors(&self) -> (r: String)
        ensures
            r@ == if self.recent().len() == 0 {
                "none"@
            } else {
                join_commas(self.recent())
            },
    {
        let n = self.recent_errors.len();
        if n == 0 {
            return String::from_str("none");
        }
        let ghost all = self.recent();
        let mut out = String::from_str(self.recent_errors[0]);
        let mut i: usize = 1;
        proof {
            assert(all.subrange(0, 1).len() == 1);
        }
        while i < n
            invariant
                n == self.recent_errors.len(),
                all == self.recent(),
                1 <= i <= n,
                out@ == join_commas(all.subrange(0, i as int)),
            decreases n - i,
        {
            out.append(",");
            out.append(self.recent_errors[i]);
            proof {
                let next = all.subrange(0, i + 1);
                assert(next.drop_last() =~= all.subrange(0, i as int));
                assert(next.last() == all[i as int]);
            }
            i = i + 1;
        }
        assert(all.subrange(0, n as int) =~= all);
        out
    }
}

/// Characters kept in an operating-system field.
pub open spec fn field_char(c: char) -> bool {
    is_ascii_alphanumeric(c) || c == ' ' || c == '.' || c == '-' || c == '(' || c == ')'
}

/// At most the first 80 characters.
pub open spec fn take_field(s: Seq<char>) -> Seq<char> {
    if s.len() <= MAX_FIELD_CHARS {
        s
    } else {
        s.subrange(0, MAX_FIELD_CHARS as int)
    }
}

/// A field reduced to letters, digits, spaces, dots, dashes and parentheses, cut to 80
/// characters, or `unavailable` when nothing is left.
pub open spec fn sanitize_spec(value: Seq<char>) -> Seq<char> {
    let kept = take_field(chars_where(value, |c: char| field_char(c)));
    if kept.len() == 0 {
        "unavailable"@
    } else {
        kept
    }
}

/// Sanitizes an operating-system field for the snapshot.
pub fn sanitize_field(value: &str) -> (r: String)
    ensures
        r@ == sanitize_spec(value@),
{
    let n = value.unicode_len();
    let mut out = String::new();
    let mut i: usize = 0;
    while i < n
        invariant
            n == value@.len(),
            i <= n,
            out@ == take_field(chars_where(value@.subrange(0, i as int), |c: char| field_char(c))),
        decreases n - i,
    {
        let c = value.get_char(i);
        let keep = ('a' <= c && c <= 'z') || ('A' <= c && c <= 'Z') || ('0' <= c && c <= '9') || c
            == ' ' || c == '.' || c == '-' || c == '(' || c == ')';
        proof {
            let next = value@.subrange(0, i + 1);
            assert(next.drop_last() =~= value@.subrange(0, i as int));
            assert(next.last() == c);
        }
        if keep && out.unicode_len() < MAX_FIELD_CHARS {
            push_char(&mut out, c);
        }
        i = i + 1;
        proof {
            let prev = chars_where(value@.subrange(0, i - 1), |c: char| field_char(c));
            let cur = chars_where(value@.subrange(0, i as int), |c: char| field_char(c));
            if keep {
                assert(cur == prev.push(c));
                if prev.len() >= MAX_FIELD_CHARS {
                    assert(take_field(cur) =~= take_field(prev));
                }
            } else {
                assert(cur == prev);
            }
        }
    }
    assert(value@.subrange(0, n as int) =~= value@);
    if out.unicode_len() == 0 {
        String::from_str("unavailable")
    } else {
        out
    }
}

/// What the log writer does before appending a record.
#[derive(Clone, Copy, Debug, PartialEq, Eq, Structural)]
pub enum LogRotation {
    /// The record alone exceeds the log bound and is not written.
    Reject,
    /// The record fits in the active file.
    Append,
    /// The active file holds an unbounded log from before rotation existed; it is
    /// deleted, and no archive is kept.
    Discard,
    /// The active file becomes the single archive, replacing any older one.
    Archive,
}

/// Decides how to keep the log within one bounded active file and one archive, from the
/// incoming record's size and the active file's size.
pub fn rotation_plan(incoming_bytes: u64, current_bytes: u64) -> (r: LogRotation)
    ensures
        incoming_bytes > MAX_LOG_BYTES ==> r == LogRotation::Reject,
        incoming_bytes <= MAX_LOG_BYTES && (current_bytes == 0 || current_bytes + incoming_bytes
            <= MAX_LOG_BYTES) ==> r == LogRotation::Append,
        incoming_bytes <= MAX_LOG_BYTES && current_bytes != 0 && current_bytes + incoming_bytes
            > MAX_LOG_BYTES && current_bytes > MAX_LOG_BYTES ==> r == LogRotation::Discard,
        incoming_bytes <= MAX_LOG_BYTES && current_bytes != 0 && current_bytes + incoming_bytes
            > MAX_LOG_BYTES && current_bytes <= MAX_LOG_BYTES ==> r == LogRotation::Archive,
{
    if incoming_bytes > MAX_LOG_BYTES {
        return LogRotation::Reject;
    }
    if current_bytes == 0 || current_bytes.saturating_add(incoming_bytes) <= MAX_LOG_BYTES {
        return LogRotation::Append;
    }
    if current_bytes > MAX_LOG_BYTES {
        LogRotation::Discard
    } else {
        LogRotation::Archive
    }
}

/// Whole milliseconds, saturated at `u64::MAX`.
pub fn duration_ms(millis: u128) -> (r: u64)
    ensures
        r == if millis > u64::MAX {
            u64::MAX
        } else {
            millis as u64
        },
{
    if millis > u64::MAX as u128 {
        u64::MAX
    } else {
        millis as u64
    }
}

} // verus!
