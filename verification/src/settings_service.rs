//! The transactional settings and platform-registration use case.
use crate::hotkey::{hotkey_text, parse_hotkey, parse_hotkey_spec, Hotkey, HotkeyParseError, ParseFailure};
use crate::ports::{HotkeyPort, PortError, SettingsRepository, StartupPort};
use crate::settings::{AppSettings, SettingsModel, SETTINGS_SCHEMA_VERSION};
use crate::settings_state::SettingsState;
use std::sync::Arc;
use vstd::prelude::*;

verus! {

/// Typed settings update accepted at the IPC boundary.
#[derive(Clone, Debug, PartialEq, Eq)]
pub struct SettingsUpdate {
    /// Canonical or parseable requested hotkey.
    pub hotkey: String,
    /// Requested launch-at-sign-in state.
    pub launch_at_startup: bool,
    /// Requested single-safe-URL behavior.
    pub auto_open_safe_urls: bool,
    /// Requested non-URL clipboard behavior.
    pub copy_non_url_payloads: bool,
    /// Requested notification behavior.
    pub notifications_enabled: bool,
}

/// Typed settings snapshot returned to the frontend.
#[derive(Clone, Debug, PartialEq, Eq)]
pub struct SettingsSnapshot {
    /// Validated preferences.
    pub settings: AppSettings,
    /// Actual registered hotkey, if any.
    pub active_hotkey: Option<String>,
    /// Whether a global hotkey is currently registered.
    pub hotkey_registered: bool,
}

/// Settings validation, platform, persistence, or rollback failure.
#[derive(Debug)]
pub enum SettingsError {
    /// Hotkey syntax was invalid.
    InvalidHotkey(HotkeyParseError),
    /// Operating-system registration rejected the new hotkey.
    HotkeyRegistration(PortError),
    /// Launch-at-startup registration failed.
    Startup(PortError),
    /// Atomic settings persistence failed.
    Persistence(PortError),
    /// A compensating platform action failed after another operation failed.
    RollbackFailed,
}

/// The settings an accepted update stores: the requested preferences over the current
/// display choice and first-run state, written with the current schema version.
pub open spec fn desired_settings(old: SettingsModel, hotkey: Hotkey, update: SettingsUpdate) -> SettingsModel {
    SettingsModel {
        schema_version: SETTINGS_SCHEMA_VERSION,
        hotkey,
        launch_at_startup: update.launch_at_startup,
        auto_open_safe_urls: update.auto_open_safe_urls,
        copy_non_url_payloads: update.copy_non_url_payloads,
        notifications_enabled: update.notifications_enabled,
        scan_monitor_id: old.scan_monitor_id,
        onboarding_completed: old.onboarding_completed,
    }
}

/// The settings after the first-run introduction was completed.
pub open spec fn onboarded_settings(old: SettingsModel) -> SettingsModel {
    SettingsModel { onboarding_completed: true, ..old }
}

/// A snapshot reports the held settings, except that the startup flag may come from the
/// operating system, and reports a hotkey exactly when one is registered.
pub open spec fn snapshot_reports(snap: SettingsSnapshot, held: SettingsModel) -> bool {
    &&& snap.settings@ == SettingsModel { launch_at_startup: snap.settings.launch_at_startup, ..held }
    &&& snap.hotkey_registered == snap.active_hotkey is Some
    &&& snap.active_hotkey matches Some(text) ==> exists|h: Hotkey| text@ == #[trigger] hotkey_text(h)
}

/// The platform step of a settings update that failed.
#[derive(Clone, Copy, Debug, PartialEq, Eq, Structural)]
pub enum UpdateStage {
    /// Registering the requested hotkey.
    HotkeyRegistration,
    /// Changing the launch-at-sign-in registration.
    Startup,
    /// Saving the settings document.
    Persistence,
}

/// What an update does once the hotkey parsed: the settings it saves and holds, whether
/// the hotkey registration must change (a different hotkey, or none registered) and
/// whether the launch-at-sign-in registration must change.
pub fn update_plan(
    old: &AppSettings,
    old_startup: bool,
    active_missing: bool,
    hotkey: Hotkey,
    update: &SettingsUpdate,
) -> (r: (AppSettings, bool, bool))
    ensures
        r.0@ == desired_settings(old@, hotkey, *update),
        r.1 == (hotkey != old.hotkey || active_missing),
        r.2 == (update.launch_at_startup != old_startup),
{
    let desired = AppSettings {
        schema_version: SETTINGS_SCHEMA_VERSION,
        hotkey,
        launch_at_startup: update.launch_at_startup,
        auto_open_safe_urls: update.auto_open_safe_urls,
        copy_non_url_payloads: update.copy_non_url_payloads,
        notifications_enabled: update.notifications_enabled,
        scan_monitor_id: match &old.scan_monitor_id {
            Some(id) => Some(id.clone()),
            None => None,
        },
        onboarding_completed: old.onboarding_completed,
    };
    (desired, hotkey != old.hotkey || active_missing, update.launch_at_startup != old_startup)
}

/// The compensating calls after a failed step, as (restore the old launch-at-sign-in
/// state, register the old hotkey again): each step that already succeeded is undone.
pub open spec fn rollback_spec(stage: UpdateStage, hotkey_changed: bool, startup_changed: bool) -> (
    bool,
    bool,
) {
    match stage {
        UpdateStage::HotkeyRegistration => (false, false),
        UpdateStage::Startup => (false, hotkey_changed),
        UpdateStage::Persistence => (startup_changed, hotkey_changed),
    }
}

/// Decides the compensating calls after a failed step.
pub fn rollback_calls(stage: UpdateStage, hotkey_changed: bool, startup_changed: bool) -> (r: (
    bool,
    bool,
))
    ensures
        r == rollback_spec(stage, hotkey_changed, startup_changed),
{
    match stage {
        UpdateStage::HotkeyRegistration => (false, false),
        UpdateStage::Startup => (false, hotkey_changed),
        UpdateStage::Persistence => (startup_changed, hotkey_changed),
    }
}

/// The error a failed update reports: the rollback failure when a compensating call
/// failed, else the failed step's own error.
pub fn update_error(stage: UpdateStage, error: PortError, rollback_failed: bool) -> (r: SettingsError)
    ensures
        rollback_failed ==> r is RollbackFailed,
        !rollback_failed ==> r == match stage {
            UpdateStage::HotkeyRegistration => SettingsError::HotkeyRegistration(error),
            UpdateStage::Startup => SettingsError::Startup(error),
            UpdateStage::Persistence => SettingsError::Persistence(error),
        },
{
    if rollback_failed {
        SettingsError::RollbackFailed
    } else {
        match stage {
            UpdateStage::HotkeyRegistration => SettingsError::HotkeyRegistration(error),
            UpdateStage::Startup => SettingsError::Startup(error),
            UpdateStage::Persistence => SettingsError::Persistence(error),
        }
    }
}

/// A call made by the settings service to its ports.
pub enum SettingsCall {
    /// The startup port was asked for the launch-at-sign-in state; the update goes on with
    /// this state (the held one when the port did not answer).
    ReadStartup(bool),
    /// The hotkey port was asked for its registration, and reported one exactly when this
    /// holds.
    ReadRegistered(bool),
    /// The hotkey port was asked to register this hotkey in place of the current one.
    RegisterHotkey(Hotkey),
    /// The startup port was asked to set launch at sign-in to this state.
    SetStartup(bool),
    /// The repository was asked to store these settings.
    Save(SettingsModel),
}

/// The calls an update makes once the hotkey parsed, given whether each call succeeds
/// (`ok`, in call order): register the new hotkey if it must change, set the startup
/// state if it must change, save; a failed step stops the update, and the steps already
/// done are undone (the startup state first, then the hotkey).
pub open spec fn update_calls(
    desired: SettingsModel,
    hotkey_changed: bool,
    startup_changed: bool,
    old_hotkey: Hotkey,
    old_startup: bool,
    ok: Seq<bool>,
) -> Seq<SettingsCall> {
    let register = if hotkey_changed {
        seq![SettingsCall::RegisterHotkey(desired.hotkey)]
    } else {
        Seq::empty()
    };
    let set = if startup_changed {
        seq![SettingsCall::SetStartup(desired.launch_at_startup)]
    } else {
        Seq::empty()
    };
    let restore_hotkey = if hotkey_changed {
        seq![SettingsCall::RegisterHotkey(old_hotkey)]
    } else {
        Seq::empty()
    };
    let restore_startup = if startup_changed {
        seq![SettingsCall::SetStartup(old_startup)]
    } else {
        Seq::empty()
    };
    let saved = register + set + seq![SettingsCall::Save(desired)];
    if hotkey_changed && !ok[0] {
        register
    } else if startup_changed && !ok[register.len() as int] {
        register + set + restore_hotkey
    } else if !ok[(register.len() + set.len()) as int] {
        saved + restore_startup + restore_hotkey
    } else {
        saved
    }
}

/// Where an update stopped, given whether each call succeeded: `None` when it went
/// through, else the failed step and whether a compensating call failed too.
pub open spec fn update_failure(hotkey_changed: bool, startup_changed: bool, ok: Seq<bool>) -> Option<
    (UpdateStage, bool),
> {
    let h: int = if hotkey_changed {
        1
    } else {
        0
    };
    let st: int = if startup_changed {
        1
    } else {
        0
    };
    if hotkey_changed && !ok[0] {
        Some((UpdateStage::HotkeyRegistration, false))
    } else if startup_changed && !ok[h] {
        Some((UpdateStage::Startup, hotkey_changed && !ok[h + 1]))
    } else if !ok[h + st] {
        Some(
            (
                UpdateStage::Persistence,
                (startup_changed && !ok[h + st + 1]) || (hotkey_changed && !ok[h + st + 1 + st]),
            ),
        )
    } else {
        None
    }
}

/// The calls of a trace, without their outcomes.
pub open spec fn trace_calls(t: Seq<(SettingsCall, bool)>) -> Seq<SettingsCall> {
    t.map_values(|e: (SettingsCall, bool)| e.0)
}

/// The outcomes of a trace's calls.
pub open spec fn trace_ok(t: Seq<(SettingsCall, bool)>) -> Seq<bool> {
    t.map_values(|e: (SettingsCall, bool)| e.1)
}

/// `t` is what an update of `held` to hotkey `h` makes of the ports after its reads,
/// when the startup state read was `old_startup` and the hotkey port reported no
/// registration exactly when `active_missing`, and `failure` is where it stopped.
pub open spec fn update_steps(
    held: SettingsModel,
    h: Hotkey,
    update: SettingsUpdate,
    old_startup: bool,
    active_missing: bool,
    t: Seq<(SettingsCall, bool)>,
    failure: Option<(UpdateStage, bool)>,
) -> bool {
    let desired = desired_settings(held, h, update);
    let hotkey_changed = h != held.hotkey || active_missing;
    let startup_changed = update.launch_at_startup != old_startup;
    &&& trace_calls(t) == update_calls(
        desired,
        hotkey_changed,
        startup_changed,
        held.hotkey,
        old_startup,
        trace_ok(t),
    )
    &&& failure == update_failure(hotkey_changed, startup_changed, trace_ok(t))
}

/// The number of reads an update starts with: the startup state, then, when the
/// requested hotkey is the held one, whether a hotkey is registered.
pub open spec fn read_count(held: SettingsModel, h: Hotkey) -> int {
    if h == held.hotkey {
        2
    } else {
        1
    }
}

/// The startup state an update read.
pub open spec fn startup_read(t: Seq<(SettingsCall, bool)>) -> bool {
    match t[0].0 {
        SettingsCall::ReadStartup(b) => b,
        _ => false,
    }
}

/// Whether the update found the hotkey registration missing.
pub open spec fn found_missing(held: SettingsModel, h: Hotkey, t: Seq<(SettingsCall, bool)>) -> bool {
    h == held.hotkey && match t[1].0 {
        SettingsCall::ReadRegistered(b) => !b,
        _ => false,
    }
}

/// Where an update whose calls were `t` stopped.
pub open spec fn update_outcome(held: SettingsModel, h: Hotkey, update: SettingsUpdate, t: Seq<(SettingsCall, bool)>) -> Option<(UpdateStage, bool)> {
    update_failure(
        h != held.hotkey || found_missing(held, h, t),
        update.launch_at_startup != startup_read(t),
        trace_ok(t.skip(read_count(held, h))),
    )
}

/// `t` is what an update of `held` to hotkey `h` makes of the ports: it reads the startup
/// state (falling back on the held one when the port does not answer) and, when the
/// hotkey is unchanged, the registration; then its steps follow `update_steps` for what
/// it read.
pub open spec fn update_trace(held: SettingsModel, h: Hotkey, update: SettingsUpdate, t: Seq<(SettingsCall, bool)>) -> bool {
    &&& t.len() >= read_count(held, h)
    &&& t[0].0 is ReadStartup
    &&& (!t[0].1 ==> startup_read(t) == held.launch_at_startup)
    &&& (h == held.hotkey ==> (t[1].0 is ReadRegistered && t[1].1))
    &&& update_steps(
        held,
        h,
        update,
        startup_read(t),
        found_missing(held, h, t),
        t.skip(read_count(held, h)),
        update_outcome(held, h, update, t),
    )
}

/// The update result reports where the update stopped.
pub open spec fn reports_failure(r: Result<SettingsSnapshot, SettingsError>, failure: Option<(UpdateStage, bool)>) -> bool {
    match failure {
        None => r is Ok,
        Some(f) => (r matches Err(e) && error_reports(e, f)),
    }
}

/// The error names the failed step, or the failed rollback.
pub open spec fn error_reports(e: SettingsError, failure: (UpdateStage, bool)) -> bool {
    match failure {
        (_, true) => e is RollbackFailed,
        (UpdateStage::HotkeyRegistration, false) => e is HotkeyRegistration,
        (UpdateStage::Startup, false) => e is Startup,
        (UpdateStage::Persistence, false) => e is Persistence,
    }
}

/// Where the steps of an update stopped, given what it read.
pub open spec fn steps_outcome(
    held: SettingsModel,
    h: Hotkey,
    update: SettingsUpdate,
    old_startup: bool,
    active_missing: bool,
    steps: Seq<(SettingsCall, bool)>,
) -> Option<(UpdateStage, bool)> {
    update_failure(
        h != held.hotkey || active_missing,
        update.launch_at_startup != old_startup,
        trace_ok(steps),
    )
}

/// The registered hotkey and launch-at-sign-in state after the calls of a trace, when a
/// call that succeeds takes effect and one that fails changes nothing.
pub open spec fn registrations_after(t: Seq<(SettingsCall, bool)>, before: (Option<Hotkey>, bool)) -> (
    Option<Hotkey>,
    bool,
)
    decreases t.len(),
{
    if t.len() == 0 {
        before
    } else {
        after_call(registrations_after(t.drop_last(), before), t.last())
    }
}

/// The registrations after one call: a successful registration or startup change takes
/// effect; a failed call, a read and a save change nothing.
pub open spec fn after_call(prev: (Option<Hotkey>, bool), e: (SettingsCall, bool)) -> (Option<Hotkey>, bool) {
    if !e.1 {
        prev
    } else {
        match e.0 {
            SettingsCall::RegisterHotkey(k) => (Some(k), prev.1),
            SettingsCall::SetStartup(b) => (prev.0, b),
            _ => prev,
        }
    }
}

proof fn lemma_failed_steps_restore(
    held: SettingsModel,
    h: Hotkey,
    update: SettingsUpdate,
    old_startup: bool,
    active_missing: bool,
    t: Seq<(SettingsCall, bool)>,
    stage: UpdateStage,
    before: Option<Hotkey>,
)
    requires
        update_steps(held, h, update, old_startup, active_missing, t, Some((stage, false))),
    ensures
        registrations_after(t, (before, old_startup)).1 == old_startup,
        registrations_after(t, (before, old_startup)).0 == (if (h != held.hotkey || active_missing)
            && !(stage is HotkeyRegistration) {
            Some(held.hotkey)
        } else {
            before
        }),
        before == Some(held.hotkey) ==> registrations_after(t, (before, old_startup)) == (
            before,
            old_startup,
        ),
{
    let desired = desired_settings(held, h, update);
    let hc = h != held.hotkey || active_missing;
    let sc = update.launch_at_startup != old_startup;
    let ok = trace_ok(t);
    let calls = update_calls(desired, hc, sc, held.hotkey, old_startup, ok);
    assert(t.len() == calls.len());
    assert forall|i: int| 0 <= i < t.len() implies t[i] == (#[trigger] calls[i], ok[i]) by {
        assert(trace_calls(t)[i] == calls[i]);
        assert(trace_ok(t)[i] == t[i].1);
    }
    let b = (before, old_startup);
    assert forall|k: int| 0 <= k < t.len() implies registrations_after(#[trigger] t.take(k + 1), b)
        == after_call(registrations_after(t.take(k), b), t[k]) by {
        assert(t.take(k + 1).drop_last() =~= t.take(k));
    }
    assert(registrations_after(t.take(0), b) == b);
    assert(t.take(t.len() as int) =~= t);
    let r1 = registrations_after(t.take(1), b);
    let r2 = registrations_after(t.take(2), b);
    let r3 = registrations_after(t.take(3), b);
    let r4 = registrations_after(t.take(4), b);
    let r5 = registrations_after(t.take(5), b);
    let n: int = (if hc { 1int } else { 0int }) + (if sc { 1int } else { 0int });
    if hc && !ok[0] {
        assert(calls =~= seq![SettingsCall::RegisterHotkey(h)]);
    } else if sc && !ok[(if hc { 1int } else { 0int })] {
        if hc {
            assert(calls =~= seq![
                SettingsCall::RegisterHotkey(h),
                SettingsCall::SetStartup(update.launch_at_startup),
                SettingsCall::RegisterHotkey(held.hotkey),
            ]);
        } else {
            assert(calls =~= seq![SettingsCall::SetStartup(update.launch_at_startup)]);
        }
    } else if !ok[n] {
        if hc && sc {
            assert(calls =~= seq![
                SettingsCall::RegisterHotkey(h),
                SettingsCall::SetStartup(update.launch_at_startup),
                SettingsCall::Save(desired),
                SettingsCall::SetStartup(old_startup),
                SettingsCall::RegisterHotkey(held.hotkey),
            ]);
        } else if hc {
            assert(calls =~= seq![
                SettingsCall::RegisterHotkey(h),
                SettingsCall::Save(desired),
                SettingsCall::RegisterHotkey(held.hotkey),
            ]);
        } else if sc {
            assert(calls =~= seq![
                SettingsCall::SetStartup(update.launch_at_startup),
                SettingsCall::Save(desired),
                SettingsCall::SetStartup(old_startup),
            ]);
        } else {
            assert(calls =~= seq![SettingsCall::Save(desired)]);
        }
    }
}

proof fn lemma_registrations_concat(
    a: Seq<(SettingsCall, bool)>,
    b: Seq<(SettingsCall, bool)>,
    before: (Option<Hotkey>, bool),
)
    ensures
        registrations_after(a + b, before) == registrations_after(b, registrations_after(a, before)),
    decreases b.len(),
{
    if b.len() == 0 {
        assert(a + b =~= a);
    } else {
        assert((a + b).drop_last() =~= a + b.drop_last());
        assert((a + b).last() == b.last());
        lemma_registrations_concat(a, b.drop_last(), before);
    }
}

/// A failed update whose compensating calls succeed leaves the launch-at-sign-in state as
/// the startup port reported it and the held hotkey registered; when that hotkey was the
/// registered one, the registrations are exactly as they were.
pub proof fn lemma_failed_update_restores_registrations(
    held: SettingsModel,
    h: Hotkey,
    update: SettingsUpdate,
    t: Seq<(SettingsCall, bool)>,
    stage: UpdateStage,
    before: (Option<Hotkey>, bool),
)
    requires
        update_trace(held, h, update, t),
        update_outcome(held, h, update, t) == Some((stage, false)),
        t[0] == (SettingsCall::ReadStartup(before.1), true),
    ensures
        registrations_after(t, before).1 == before.1,
        registrations_after(t, before).0 == (if (h != held.hotkey || found_missing(held, h, t))
            && !(stage is HotkeyRegistration) {
            Some(held.hotkey)
        } else {
            before.0
        }),
        before.0 == Some(held.hotkey) ==> registrations_after(t, before) == before,
{
    let n = read_count(held, h);
    let reads = t.take(n);
    let steps = t.skip(n);
    assert(t =~= reads + steps);
    lemma_registrations_concat(reads, steps, before);
    let first = t.take(1);
    assert(first.drop_last() =~= Seq::<(SettingsCall, bool)>::empty());
    assert(registrations_after(Seq::<(SettingsCall, bool)>::empty(), before) == before);
    assert(first.last() == t[0]);
    assert(registrations_after(first, before) == before);
    if n == 2 {
        assert(reads.drop_last() =~= first);
        assert(reads.last() == t[1]);
    } else {
        assert(reads =~= first);
    }
    assert(registrations_after(reads, before) == before);
    lemma_failed_steps_restore(
        held,
        h,
        update,
        before.1,
        found_missing(held, h, t),
        steps,
        stage,
        before.0,
    );
}

/// The steps of an update that went through before the save: the hotkey registration
/// and the startup change, each when it had to change.
pub open spec fn done_steps(held: SettingsModel, h: Hotkey, update: SettingsUpdate, old_startup: bool, active_missing: bool) -> Seq<(SettingsCall, bool)> {
    (if h != held.hotkey || active_missing {
        seq![(SettingsCall::RegisterHotkey(h), true)]
    } else {
        Seq::empty()
    }) + (if update.launch_at_startup != old_startup {
        seq![(SettingsCall::SetStartup(update.launch_at_startup), true)]
    } else {
        Seq::empty()
    })
}

proof fn lemma_hotkey_step_failed(held: SettingsModel, h: Hotkey, update: SettingsUpdate, old_startup: bool, active_missing: bool)
    requires
        h != held.hotkey || active_missing,
    ensures
        update_steps(held, h, update, old_startup, active_missing, seq![(SettingsCall::RegisterHotkey(h), false)], Some((UpdateStage::HotkeyRegistration, false))),
{
    let t = seq![(SettingsCall::RegisterHotkey(h), false)];
    assert(trace_ok(t) =~= seq![false]);
    assert(trace_calls(t) =~= seq![SettingsCall::RegisterHotkey(h)]);
    assert(update_calls(desired_settings(held, h, update), h != held.hotkey || active_missing, update.launch_at_startup != old_startup, held.hotkey, old_startup, seq![false]) =~= seq![SettingsCall::RegisterHotkey(h)]);
}

proof fn lemma_startup_step_failed(held: SettingsModel, h: Hotkey, update: SettingsUpdate, old_startup: bool, active_missing: bool, back: bool)
    requires
        update.launch_at_startup != old_startup,
    ensures
        ({
            let hc = h != held.hotkey || active_missing;
            let t = (if hc {
                seq![(SettingsCall::RegisterHotkey(h), true)]
            } else {
                Seq::empty()
            }) + seq![(SettingsCall::SetStartup(update.launch_at_startup), false)] + (if hc {
                seq![(SettingsCall::RegisterHotkey(held.hotkey), back)]
            } else {
                Seq::empty()
            });
            update_steps(held, h, update, old_startup, active_missing, t, Some((UpdateStage::Startup, hc && !back)))
        }),
{
    let hc = h != held.hotkey || active_missing;
    let t = (if hc {
        seq![(SettingsCall::RegisterHotkey(h), true)]
    } else {
        Seq::empty()
    }) + seq![(SettingsCall::SetStartup(update.launch_at_startup), false)] + (if hc {
        seq![(SettingsCall::RegisterHotkey(held.hotkey), back)]
    } else {
        Seq::empty()
    });
    if hc {
        assert(trace_ok(t) =~= seq![true, false, back]);
        assert(trace_calls(t) =~= seq![SettingsCall::RegisterHotkey(h), SettingsCall::SetStartup(update.launch_at_startup), SettingsCall::RegisterHotkey(held.hotkey)]);
        assert(update_calls(desired_settings(held, h, update), h != held.hotkey || active_missing, update.launch_at_startup != old_startup, held.hotkey, old_startup, seq![true, false, back]) =~= seq![SettingsCall::RegisterHotkey(h), SettingsCall::SetStartup(update.launch_at_startup), SettingsCall::RegisterHotkey(held.hotkey)]);
    } else {
        assert(trace_ok(t) =~= seq![false]);
        assert(trace_calls(t) =~= seq![SettingsCall::SetStartup(update.launch_at_startup)]);
        assert(update_calls(desired_settings(held, h, update), h != held.hotkey || active_missing, update.launch_at_startup != old_startup, held.hotkey, old_startup, seq![false]) =~= seq![SettingsCall::SetStartup(update.launch_at_startup)]);
    }
}

proof fn lemma_save_failed(held: SettingsModel, h: Hotkey, update: SettingsUpdate, old_startup: bool, active_missing: bool, startup_back: bool, hotkey_back: bool)
    ensures
        ({
            let hc = h != held.hotkey || active_missing;
            let sc = update.launch_at_startup != old_startup;
            let t = done_steps(held, h, update, old_startup, active_missing) + seq![
                (SettingsCall::Save(desired_settings(held, h, update)), false),
            ] + (if sc {
                seq![(SettingsCall::SetStartup(old_startup), startup_back)]
            } else {
                Seq::empty()
            }) + (if hc {
                seq![(SettingsCall::RegisterHotkey(held.hotkey), hotkey_back)]
            } else {
                Seq::empty()
            });
            update_steps(held, h, update, old_startup, active_missing, t, Some((UpdateStage::Persistence, (sc && !startup_back) || (hc && !hotkey_back))))
        }),
{
    let hc = h != held.hotkey || active_missing;
    let sc = update.launch_at_startup != old_startup;
    let d = desired_settings(held, h, update);
    let t = done_steps(held, h, update, old_startup, active_missing) + seq![
        (SettingsCall::Save(d), false),
    ] + (if sc {
        seq![(SettingsCall::SetStartup(old_startup), startup_back)]
    } else {
        Seq::empty()
    }) + (if hc {
        seq![(SettingsCall::RegisterHotkey(held.hotkey), hotkey_back)]
    } else {
        Seq::empty()
    });
    if hc && sc {
        assert(trace_ok(t) =~= seq![true, true, false, startup_back, hotkey_back]);
        assert(trace_calls(t) =~= seq![SettingsCall::RegisterHotkey(h), SettingsCall::SetStartup(update.launch_at_startup), SettingsCall::Save(d), SettingsCall::SetStartup(old_startup), SettingsCall::RegisterHotkey(held.hotkey)]);
        assert(update_calls(desired_settings(held, h, update), h != held.hotkey || active_missing, update.launch_at_startup != old_startup, held.hotkey, old_startup, seq![true, true, false, startup_back, hotkey_back]) =~= seq![SettingsCall::RegisterHotkey(h), SettingsCall::SetStartup(update.launch_at_startup), SettingsCall::Save(d), SettingsCall::SetStartup(old_startup), SettingsCall::RegisterHotkey(held.hotkey)]);
    } else if hc {
        assert(trace_ok(t) =~= seq![true, false, hotkey_back]);
        assert(trace_calls(t) =~= seq![SettingsCall::RegisterHotkey(h), SettingsCall::Save(d), SettingsCall::RegisterHotkey(held.hotkey)]);
        assert(update_calls(desired_settings(held, h, update), h != held.hotkey || active_missing, update.launch_at_startup != old_startup, held.hotkey, old_startup, seq![true, false, hotkey_back]) =~= seq![SettingsCall::RegisterHotkey(h), SettingsCall::Save(d), SettingsCall::RegisterHotkey(held.hotkey)]);
    } else if sc {
        assert(trace_ok(t) =~= seq![true, false, startup_back]);
        assert(trace_calls(t) =~= seq![SettingsCall::SetStartup(update.launch_at_startup), SettingsCall::Save(d), SettingsCall::SetStartup(old_startup)]);
        assert(update_calls(desired_settings(held, h, update), h != held.hotkey || active_missing, update.launch_at_startup != old_startup, held.hotkey, old_startup, seq![true, false, startup_back]) =~= seq![SettingsCall::SetStartup(update.launch_at_startup), SettingsCall::Save(d), SettingsCall::SetStartup(old_startup)]);
    } else {
        assert(trace_ok(t) =~= seq![false]);
        assert(trace_calls(t) =~= seq![SettingsCall::Save(d)]);
        assert(update_calls(desired_settings(held, h, update), h != held.hotkey || active_missing, update.launch_at_startup != old_startup, held.hotkey, old_startup, seq![false]) =~= seq![SettingsCall::Save(d)]);
    }
}

proof fn lemma_saved(held: SettingsModel, h: Hotkey, update: SettingsUpdate, old_startup: bool, active_missing: bool)
    ensures
        update_steps(held, h, update, old_startup, active_missing, done_steps(held, h, update, old_startup, active_missing) + seq![(SettingsCall::Save(desired_settings(held, h, update)), true)], None),
{
    let hc = h != held.hotkey || active_missing;
    let sc = update.launch_at_startup != old_startup;
    let d = desired_settings(held, h, update);
    let t = done_steps(held, h, update, old_startup, active_missing) + seq![(SettingsCall::Save(d), true)];
    if hc && sc {
        assert(trace_ok(t) =~= seq![true, true, true]);
        assert(trace_calls(t) =~= seq![SettingsCall::RegisterHotkey(h), SettingsCall::SetStartup(update.launch_at_startup), SettingsCall::Save(d)]);
        assert(update_calls(desired_settings(held, h, update), h != held.hotkey || active_missing, update.launch_at_startup != old_startup, held.hotkey, old_startup, seq![true, true, true]) =~= seq![SettingsCall::RegisterHotkey(h), SettingsCall::SetStartup(update.launch_at_startup), SettingsCall::Save(d)]);
    } else if hc {
        assert(trace_ok(t) =~= seq![true, true]);
        assert(trace_calls(t) =~= seq![SettingsCall::RegisterHotkey(h), SettingsCall::Save(d)]);
        assert(update_calls(desired_settings(held, h, update), h != held.hotkey || active_missing, update.launch_at_startup != old_startup, held.hotkey, old_startup, seq![true, true]) =~= seq![SettingsCall::RegisterHotkey(h), SettingsCall::Save(d)]);
    } else if sc {
        assert(trace_ok(t) =~= seq![true, true]);
        assert(trace_calls(t) =~= seq![SettingsCall::SetStartup(update.launch_at_startup), SettingsCall::Save(d)]);
        assert(update_calls(desired_settings(held, h, update), h != held.hotkey || active_missing, update.launch_at_startup != old_startup, held.hotkey, old_startup, seq![true, true]) =~= seq![SettingsCall::SetStartup(update.launch_at_startup), SettingsCall::Save(d)]);
    } else {
        assert(trace_ok(t) =~= seq![true]);
        assert(trace_calls(t) =~= seq![SettingsCall::Save(d)]);
        assert(update_calls(desired_settings(held, h, update), h != held.hotkey || active_missing, update.launch_at_startup != old_startup, held.hotkey, old_startup, seq![true]) =~= seq![SettingsCall::Save(d)]);
    }
}

/// The reads an update starts with.
pub open spec fn update_reads(held: SettingsModel, h: Hotkey, old_startup: bool, answered: bool, active_missing: bool) -> Seq<(SettingsCall, bool)> {
    if h == held.hotkey {
        seq![
            (SettingsCall::ReadStartup(old_startup), answered),
            (SettingsCall::ReadRegistered(!active_missing), true),
        ]
    } else {
        seq![(SettingsCall::ReadStartup(old_startup), answered)]
    }
}

proof fn lemma_update_recorded(
    held: SettingsModel,
    h: Hotkey,
    update: SettingsUpdate,
    old_startup: bool,
    answered: bool,
    active_missing: bool,
    steps: Seq<(SettingsCall, bool)>,
    failure: Option<(UpdateStage, bool)>,
)
    requires
        !answered ==> old_startup == held.launch_at_startup,
        h != held.hotkey ==> !active_missing,
        update_steps(held, h, update, old_startup, active_missing, steps, failure),
    ensures
        update_trace(held, h, update, update_reads(held, h, old_startup, answered, active_missing) + steps),
        update_outcome(held, h, update, update_reads(held, h, old_startup, answered, active_missing) + steps)
            == failure,
{
    let t = update_reads(held, h, old_startup, answered, active_missing) + steps;
    assert(t.skip(read_count(held, h)) =~= steps);
    assert(t[0] == (SettingsCall::ReadStartup(old_startup), answered));
    assert(h == held.hotkey ==> t[1] == (SettingsCall::ReadRegistered(!active_missing), true));
}

/// The settings after the first-run introduction was completed.
pub fn onboarding_settings(old: &AppSettings) -> (r: AppSettings)
    ensures
        r@ == onboarded_settings(old@),
{
    let mut desired = old.clone();
    desired.onboarding_completed = true;
    desired
}

/// The settings a snapshot reports: the held ones, with the operating system's
/// launch-at-sign-in answer when it gave one.
pub open spec fn reported_settings(held: SettingsModel, startup: Result<bool, PortError>) -> SettingsModel {
    match startup {
        Ok(enabled) => SettingsModel { launch_at_startup: enabled, ..held },
        Err(_) => held,
    }
}

/// The reported hotkey text is the canonical text of the registered hotkey.
pub open spec fn reports_hotkey(text: Option<String>, active: Option<Hotkey>) -> bool {
    match active {
        Some(h) => (text matches Some(t) && t@ == hotkey_text(h)),
        None => text is None,
    }
}

/// What a snapshot reports from the held settings, the operating system's launch-at-sign-in
/// answer and the hotkey the registration reports.
pub fn snapshot_of(
    settings: AppSettings,
    startup: Result<bool, PortError>,
    active: Option<Hotkey>,
) -> (r: SettingsSnapshot)
    ensures
        r.settings@ == reported_settings(settings@, startup),
        r.hotkey_registered == (active is Some),
        reports_hotkey(r.active_hotkey, active),

{
    let mut settings = settings;
    if let Ok(enabled) = startup {
        settings.launch_at_startup = enabled;
    }
    let (active_hotkey, hotkey_registered) = match &active {
        Some(h) => (Some(h.to_string()), true),
        None => (None, false),
    };
    SettingsSnapshot { settings, active_hotkey, hotkey_registered }
}

/// Transactional settings and platform-registration use case.
pub struct SettingsService<R: ?Sized + SettingsRepository, H: ?Sized + HotkeyPort, S: ?Sized + StartupPort> {
    repository: Arc<R>,
    hotkeys: Arc<H>,
    startup: Arc<S>,
    state: SettingsState,
    calls: Ghost<Seq<(SettingsCall, bool)>>,
}

impl<R: ?Sized + SettingsRepository, H: ?Sized + HotkeyPort, S: ?Sized + StartupPort> SettingsService<R, H, S> {
    /// The settings held in memory.
    pub closed spec fn held(&self) -> SettingsModel {
        self.state.current()
    }

    /// The calls this service's updates and onboarding have made of its ports, oldest
    /// first, each with whether it succeeded: the reads an update decides on,
    /// registrations, startup changes and saves. The service records each call where it
    /// makes it; snapshots only read, and record nothing.
    pub closed spec fn port_calls(&self) -> Seq<(SettingsCall, bool)> {
        self.calls@
    }

    /// Creates a settings service over validated state and replaceable adapters.
    pub fn new(repository: Arc<R>, hotkeys: Arc<H>, startup: Arc<S>, state: SettingsState) -> (r: Self)
        ensures
            r.held() == state.current(),
            r.port_calls() == Seq::<(SettingsCall, bool)>::empty(),
    {
        Self { repository, hotkeys, startup, state, calls: Ghost(Seq::empty()) }
    }

    fn read_startup(&mut self, fallback: bool) -> (r: (bool, Ghost<bool>))
        ensures
            final(self).port_calls() == old(self).port_calls().push(
                (SettingsCall::ReadStartup(r.0), r.1@),
            ),
            !r.1@ ==> r.0 == fallback,
            final(self).held() == old(self).held(),
    {
        let (state, answered) = match self.startup.is_enabled() {
            Ok(enabled) => (enabled, Ghost(true)),
            Err(_) => (fallback, Ghost(false)),
        };
        self.calls = Ghost(self.calls@.push((SettingsCall::ReadStartup(state), answered@)));
        (state, answered)
    }

    fn read_registered(&mut self) -> (r: bool)
        ensures
            final(self).port_calls() == old(self).port_calls().push(
                (SettingsCall::ReadRegistered(r), true),
            ),
            final(self).held() == old(self).held(),
    {
        let present = self.hotkeys.active().is_some();
        self.calls = Ghost(self.calls@.push((SettingsCall::ReadRegistered(present), true)));
        present
    }

    fn register_hotkey(&mut self, hotkey: &Hotkey) -> (r: Result<(), PortError>)
        ensures
            final(self).port_calls() == old(self).port_calls().push(
                (SettingsCall::RegisterHotkey(*hotkey), r is Ok),
            ),
            final(self).held() == old(self).held(),
    {
        let r = self.hotkeys.replace(hotkey);
        self.calls = Ghost(self.calls@.push((SettingsCall::RegisterHotkey(*hotkey), r is Ok)));
        r
    }

    fn set_startup(&mut self, enabled: bool) -> (r: Result<(), PortError>)
        ensures
            final(self).port_calls() == old(self).port_calls().push(
                (SettingsCall::SetStartup(enabled), r is Ok),
            ),
            final(self).held() == old(self).held(),
    {
        let r = self.startup.set_enabled(enabled);
        self.calls = Ghost(self.calls@.push((SettingsCall::SetStartup(enabled), r is Ok)));
        r
    }

    fn save(&mut self, settings: &AppSettings) -> (r: Result<(), PortError>)
        ensures
            final(self).port_calls() == old(self).port_calls().push(
                (SettingsCall::Save(settings@), r is Ok),
            ),
            final(self).held() == old(self).held(),
    {
        let r = self.repository.save(settings);
        self.calls = Ghost(self.calls@.push((SettingsCall::Save(settings@), r is Ok)));
        r
    }

    /// The in-memory settings read by the scan path.
    pub fn state(&self) -> (r: &SettingsState)
        ensures
            r.current() == self.held(),
    {
        &self.state
    }

    /// Returns preferences plus actual hotkey and startup state.
    pub fn snapshot(&self) -> (r: SettingsSnapshot)
        ensures
            snapshot_reports(r, self.held()),
    {
        let settings = self.state.get();
        let startup = self.startup.is_enabled();
        let active = self.hotkeys.active();
        snapshot_of(settings, startup, active)
    }

    /// Applies platform changes and atomically persists them, rolling back on failure.
    /// An invalid hotkey is refused before any platform call; any other failure leaves
    /// the held settings as they were. The calls made follow `update_trace`: the reads,
    /// then `update_calls` for what was read; the result reports where the update
    /// stopped.
    /// The steps of an update after its reads, with the plan decided by `update_plan`.
    /// On success hands back the settings to hold.
    #[verifier::rlimit(60)]
    fn run_steps(
        &mut self,
        current: &AppSettings,
        requested_hotkey: Hotkey,
        update: &SettingsUpdate,
        old_startup: bool,
        active_missing: bool,
    ) -> (r: Result<AppSettings, SettingsError>)
        ensures
            final(self).held() == old(self).held(),
            final(self).port_calls().len() >= old(self).port_calls().len(),
            final(self).port_calls().take(old(self).port_calls().len() as int) == old(self).port_calls(),
            ({
                let steps = final(self).port_calls().skip(old(self).port_calls().len() as int);
                let f = steps_outcome(current@, requested_hotkey, *update, old_startup, active_missing, steps);
                &&& update_steps(current@, requested_hotkey, *update, old_startup, active_missing, steps, f)
                &&& (r is Ok <==> f is None)
                &&& (r matches Ok(d) ==> d@ == desired_settings(current@, requested_hotkey, *update))
                &&& (r matches Err(e) ==> (f matches Some(x) && error_reports(e, x)))
            }),
    {
        let old = current;
        let ghost log0 = self.calls@;
        let (desired, hotkey_changed, startup_changed) = update_plan(
            &old,
            old_startup,
            active_missing,
            requested_hotkey,
            update,
        );
        let ghost mut t: Seq<(SettingsCall, bool)> = Seq::empty();
        assert(self.calls@ =~= log0 + t);
        if hotkey_changed {
            let res = self.register_hotkey(&desired.hotkey);
            proof {
                t = t.push((SettingsCall::RegisterHotkey(desired.hotkey), res is Ok));
                assert(self.calls@ =~= log0 + t);
            }
            if let Err(e) = res {
                proof {
                    lemma_hotkey_step_failed(old@, requested_hotkey, *update, old_startup, active_missing);
                    assert(t =~= seq![(SettingsCall::RegisterHotkey(requested_hotkey), false)]);
                }
                proof {
                    assert(self.calls@.skip(log0.len() as int) =~= t);
                    assert(self.calls@.take(log0.len() as int) =~= log0);
                }
                return Err(update_error(UpdateStage::HotkeyRegistration, e, false));
            }
        }
        let ghost t1 = t;
        if startup_changed {
            let res = self.set_startup(desired.launch_at_startup);
            proof {
                t = t.push((SettingsCall::SetStartup(desired.launch_at_startup), res is Ok));
                assert(self.calls@ =~= log0 + t);
            }
            if let Err(e) = res {
                let (_, undo_hotkey) = rollback_calls(
                    UpdateStage::Startup,
                    hotkey_changed,
                    startup_changed,
                );
                let mut hotkey_rollback_failed = false;
                if undo_hotkey {
                    let back = self.register_hotkey(&old.hotkey);
                    proof {
                        t = t.push((SettingsCall::RegisterHotkey(old.hotkey), back is Ok));
                        assert(self.calls@ =~= log0 + t);
                    }
                    hotkey_rollback_failed = back.is_err();
                }
                proof {
                    lemma_startup_step_failed(old@, requested_hotkey, *update, old_startup, active_missing, !hotkey_rollback_failed);
                    assert(t =~= (if hotkey_changed {
                        seq![(SettingsCall::RegisterHotkey(requested_hotkey), true)]
                    } else {
                        Seq::empty()
                    }) + seq![(SettingsCall::SetStartup(update.launch_at_startup), false)] + (if hotkey_changed {
                        seq![(SettingsCall::RegisterHotkey(old.hotkey), !hotkey_rollback_failed)]
                    } else {
                        Seq::empty()
                    }));
                }
                proof {
                    assert(self.calls@.skip(log0.len() as int) =~= t);
                    assert(self.calls@.take(log0.len() as int) =~= log0);
                }
                return Err(update_error(UpdateStage::Startup, e, hotkey_rollback_failed));
            }
        }
        let res = self.save(&desired);
        proof {
            t = t.push((SettingsCall::Save(desired@), res is Ok));
            assert(self.calls@ =~= log0 + t);
        }
        if let Err(e) = res {
            let (undo_startup, undo_hotkey) = rollback_calls(
                UpdateStage::Persistence,
                hotkey_changed,
                startup_changed,
            );
            let mut startup_rollback_failed = false;
            if undo_startup {
                let back = self.set_startup(old_startup);
                proof {
                    t = t.push((SettingsCall::SetStartup(old_startup), back is Ok));
                    assert(self.calls@ =~= log0 + t);
                }
                startup_rollback_failed = back.is_err();
            }
            let mut hotkey_rollback_failed = false;
            if undo_hotkey {
                let back = self.register_hotkey(&old.hotkey);
                proof {
                    t = t.push((SettingsCall::RegisterHotkey(old.hotkey), back is Ok));
                    assert(self.calls@ =~= log0 + t);
                }
                hotkey_rollback_failed = back.is_err();
            }
            proof {
                lemma_save_failed(old@, requested_hotkey, *update, old_startup, active_missing, !startup_rollback_failed, !hotkey_rollback_failed);
                assert(t =~= done_steps(old@, requested_hotkey, *update, old_startup, active_missing) + seq![
                    (SettingsCall::Save(desired@), false),
                ] + (if startup_changed {
                    seq![(SettingsCall::SetStartup(old_startup), !startup_rollback_failed)]
                } else {
                    Seq::empty()
                }) + (if hotkey_changed {
                    seq![(SettingsCall::RegisterHotkey(old.hotkey), !hotkey_rollback_failed)]
                } else {
                    Seq::empty()
                }));
            }
            proof {
                assert(self.calls@.skip(log0.len() as int) =~= t);
                assert(self.calls@.take(log0.len() as int) =~= log0);
            }
            return Err(
                update_error(
                    UpdateStage::Persistence,
                    e,
                    startup_rollback_failed || hotkey_rollback_failed,
                ),
            );
        }
        proof {
            lemma_saved(old@, requested_hotkey, *update, old_startup, active_missing);
            assert(t =~= done_steps(old@, requested_hotkey, *update, old_startup, active_missing) + seq![(SettingsCall::Save(desired@), true)]);
        }
        proof {
            assert(self.calls@.skip(log0.len() as int) =~= t);
            assert(self.calls@.take(log0.len() as int) =~= log0);
        }
        Ok(desired)
    }

    /// Applies platform changes and atomically persists them, rolling back on failure.
    /// An invalid hotkey is refused before any platform call; any other failure leaves
    /// the held settings as they were. The calls made follow `update_trace`: the reads,
    /// then `update_calls` for what was read; the result reports where the update
    /// stopped.
    pub fn update(&mut self, update: &SettingsUpdate) -> (r: Result<SettingsSnapshot, SettingsError>)
        ensures
            parse_hotkey_spec(update.hotkey@) is Err <==> r matches Err(SettingsError::InvalidHotkey(_)),
            r matches Err(SettingsError::InvalidHotkey(e)) ==> parse_hotkey_spec(update.hotkey@)
                == Err::<Hotkey, ParseFailure>(e@) && final(self).port_calls() == old(
                self,
            ).port_calls(),
            r is Err ==> final(self).held() == old(self).held(),
            r matches Ok(snap) ==> parse_hotkey_spec(update.hotkey@) matches Ok(h) && final(self).held()
                == desired_settings(old(self).held(), h, *update) && snapshot_reports(
                snap,
                final(self).held(),
            ),
            parse_hotkey_spec(update.hotkey@) matches Ok(h) ==> ({
                let n = old(self).port_calls().len() as int;
                let t = final(self).port_calls().skip(n);
                &&& final(self).port_calls().len() >= n
                &&& final(self).port_calls().take(n) == old(self).port_calls()
                &&& update_trace(old(self).held(), h, *update, t)
                &&& reports_failure(r, update_outcome(old(self).held(), h, *update, t))
            }),
    {
        let requested_hotkey = match parse_hotkey(update.hotkey.as_str()) {
            Ok(h) => h,
            Err(e) => return Err(SettingsError::InvalidHotkey(e)),
        };
        let ghost start = self.calls@;
        let old = self.state.get();
        let (old_startup, answered) = self.read_startup(old.launch_at_startup);
        let active_missing = if requested_hotkey != old.hotkey {
            false
        } else {
            !self.read_registered()
        };
        let ghost reads = update_reads(old@, requested_hotkey, old_startup, answered@, active_missing);
        assert(self.calls@ =~= start + reads);
        let ghost log0 = self.calls@;
        let result = self.run_steps(&old, requested_hotkey, update, old_startup, active_missing);
        proof {
            let steps = self.calls@.skip(log0.len() as int);
            lemma_update_recorded(
                old@,
                requested_hotkey,
                *update,
                old_startup,
                answered@,
                active_missing,
                steps,
                steps_outcome(old@, requested_hotkey, *update, old_startup, active_missing, steps),
            );
            assert(self.calls@ =~= log0 + steps);
            assert(self.calls@.skip(start.len() as int) =~= reads + steps);
            assert(self.calls@.take(start.len() as int) =~= start);
        }
        match result {
            Ok(desired) => {
                self.state.replace(desired);
                Ok(self.snapshot())
            },
            Err(e) => Err(e),
        }
    }

    /// Persists that the first-run introduction was completed; on failure the held
    /// settings are left as they were.
    pub fn complete_onboarding(&mut self) -> (r: Result<SettingsSnapshot, SettingsError>)
        ensures
            r is Err ==> final(self).held() == old(self).held() && r matches Err(
                SettingsError::Persistence(_),
            ),
            r matches Ok(snap) ==> final(self).held() == onboarded_settings(old(self).held())
                && snapshot_reports(snap, final(self).held()),
            final(self).port_calls() == old(self).port_calls().push(
                (SettingsCall::Save(onboarded_settings(old(self).held())), r is Ok),
            ),
    {
        let old = self.state.get();
        let desired = onboarding_settings(&old);
        if let Err(e) = self.save(&desired) {
            return Err(SettingsError::Persistence(e));
        }
        self.state.replace(desired);
        Ok(self.snapshot())
    }
}

} // verus!
