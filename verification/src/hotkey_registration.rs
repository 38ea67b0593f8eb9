//! Transactional replacement of the registered global hotkey.
use crate::hotkey::Hotkey;
use crate::ports::{port_error_text, PortError};
use vstd::prelude::*;

verus! {

/// Registers and unregisters global shortcuts with the operating system.
pub trait ShortcutRegistrar {
    /// Registers the shortcut of this hotkey.
    fn register(&self, hotkey: &Hotkey) -> Result<(), PortError>;

    /// Removes the registration of this hotkey.
    fn unregister(&self, hotkey: &Hotkey) -> Result<(), PortError>;
}

/// The detail reported when a replacement failed and the previous hotkey could not be
/// registered again.
pub open spec fn rollback_detail(registration: PortError, rollback: PortError) -> Seq<char> {
    "replacement failed ("@ + port_error_text(registration)
        + "); previous registration could not be restored ("@ + port_error_text(rollback) + ")"@
}

/// A call made to the shortcut registrar.
pub enum RegistrarCall {
    /// Remove the registration of this hotkey.
    Unregister(Hotkey),
    /// Register this hotkey.
    Register(Hotkey),
}

/// The registrar calls of a replacement of `active` by `requested`, given whether each
/// call succeeds (`ok`, in call order): none when `requested` is already registered;
/// else unregister the registered hotkey, if any, and stop if that fails; then register
/// `requested`, and if that fails register the previous hotkey again.
pub open spec fn replacement_calls(active: Option<Hotkey>, requested: Hotkey, ok: Seq<bool>) -> Seq<
    RegistrarCall,
> {
    match active {
        Some(p) => if p == requested {
            Seq::empty()
        } else if !ok[0] {
            seq![RegistrarCall::Unregister(p)]
        } else if !ok[1] {
            seq![
                RegistrarCall::Unregister(p),
                RegistrarCall::Register(requested),
                RegistrarCall::Register(p),
            ]
        } else {
            seq![RegistrarCall::Unregister(p), RegistrarCall::Register(requested)]
        },
        None => seq![RegistrarCall::Register(requested)],
    }
}

/// The calls of a trace, without their outcomes.
pub open spec fn registrar_trace_calls(t: Seq<(RegistrarCall, bool)>) -> Seq<RegistrarCall> {
    t.map_values(|e: (RegistrarCall, bool)| e.0)
}

/// The outcomes of a trace's calls.
pub open spec fn registrar_trace_ok(t: Seq<(RegistrarCall, bool)>) -> Seq<bool> {
    t.map_values(|e: (RegistrarCall, bool)| e.1)
}

/// `t` is what a replacement of `active` by `requested` makes of the registrar, and it
/// succeeded exactly when every call did.
pub open spec fn replacement_trace(active: Option<Hotkey>, requested: Hotkey, t: Seq<(RegistrarCall, bool)>, succeeded: bool) -> bool {
    &&& registrar_trace_calls(t) == replacement_calls(active, requested, registrar_trace_ok(t))
    &&& succeeded == (forall|i: int| 0 <= i < t.len() ==> #[trigger] t[i].1)
}

/// The registered hotkey after the calls of a trace, when a call that succeeds takes
/// effect and one that fails changes nothing.
pub open spec fn registrar_effect(t: Seq<(RegistrarCall, bool)>, before: Option<Hotkey>) -> Option<Hotkey>
    decreases t.len(),
{
    if t.len() == 0 {
        before
    } else {
        let prev = registrar_effect(t.drop_last(), before);
        if !t.last().1 {
            prev
        } else {
            match t.last().0 {
                RegistrarCall::Unregister(_) => None,
                RegistrarCall::Register(k) => Some(k),
            }
        }
    }
}

proof fn lemma_effect_of_short_trace(t: Seq<(RegistrarCall, bool)>, before: Option<Hotkey>)
    requires
        t.len() <= 3,
    ensures
        t.len() == 0 ==> registrar_effect(t, before) == before,
        t.len() == 1 ==> registrar_effect(t, before) == registrar_effect(seq![t[0]], before),
        t.len() >= 1 ==> registrar_effect(t.take(1), before) == (if !t[0].1 {
            before
        } else {
            match t[0].0 {
                RegistrarCall::Unregister(_) => None,
                RegistrarCall::Register(k) => Some(k),
            }
        }),
        t.len() >= 2 ==> registrar_effect(t.take(2), before) == (if !t[1].1 {
            registrar_effect(t.take(1), before)
        } else {
            match t[1].0 {
                RegistrarCall::Unregister(_) => None,
                RegistrarCall::Register(k) => Some(k),
            }
        }),
        t.len() == 3 ==> registrar_effect(t, before) == (if !t[2].1 {
            registrar_effect(t.take(2), before)
        } else {
            match t[2].0 {
                RegistrarCall::Unregister(_) => None,
                RegistrarCall::Register(k) => Some(k),
            }
        }),
        t.len() == 2 ==> registrar_effect(t, before) == registrar_effect(t.take(2), before),
        t.len() == 1 ==> registrar_effect(t, before) == registrar_effect(t.take(1), before),
{
    if t.len() >= 1 {
        assert(t.take(1).drop_last() =~= Seq::<(RegistrarCall, bool)>::empty());
        assert(registrar_effect(Seq::<(RegistrarCall, bool)>::empty(), before) == before);
        assert(t.take(1).last() == t[0]);
    }
    if t.len() >= 2 {
        assert(t.take(2).drop_last() =~= t.take(1));
        assert(t.take(2).last() == t[1]);
    }
    if t.len() == 3 {
        assert(t.drop_last() =~= t.take(2));
    }
    assert(t.len() == 2 ==> t.take(2) =~= t);
    assert(t.len() == 1 ==> t.take(1) =~= t);
    assert(t.len() == 1 ==> t =~= seq![t[0]]);
}

proof fn lemma_replacement_trace(active: Option<Hotkey>, requested: Hotkey, t: Seq<(RegistrarCall, bool)>, calls: Seq<RegistrarCall>, ok: Seq<bool>)
    requires
        t.len() == calls.len(),
        ok.len() == calls.len(),
        forall|i: int| 0 <= i < t.len() ==> #[trigger] t[i] == (calls[i], ok[i]),
        calls == replacement_calls(active, requested, ok),
    ensures
        replacement_trace(active, requested, t, forall|i: int| 0 <= i < ok.len() ==> #[trigger] ok[i]),
{
    assert(registrar_trace_calls(t) =~= calls);
    assert(registrar_trace_ok(t) =~= ok);
    assert((forall|i: int| 0 <= i < ok.len() ==> #[trigger] ok[i]) == (forall|i: int| 0 <= i < t.len() ==> #[trigger] t[i].1)) by {
        if forall|i: int| 0 <= i < ok.len() ==> #[trigger] ok[i] {
            assert forall|i: int| 0 <= i < t.len() implies #[trigger] t[i].1 by {
                assert(ok[i]);
            }
        }
        if forall|i: int| 0 <= i < t.len() ==> #[trigger] t[i].1 {
            assert forall|i: int| 0 <= i < ok.len() implies #[trigger] ok[i] by {
                assert(t[i].1);
            }
        }
    }
}

/// The registered global hotkey, kept in step with the registrar: replacements go through
/// it, and it records every registrar call it makes.
pub struct HotkeyRegistration {
    active: Option<Hotkey>,
    calls: Ghost<Seq<(RegistrarCall, bool)>>,
}

impl HotkeyRegistration {
    /// The registered hotkey, if any.
    pub closed spec fn current(&self) -> Option<Hotkey> {
        self.active
    }

    /// The registrar calls made through this registration, oldest first, each with
    /// whether it succeeded.
    pub closed spec fn registrar_calls(&self) -> Seq<(RegistrarCall, bool)> {
        self.calls@
    }

    /// No hotkey registered yet.
    pub fn new() -> (r: Self)
        ensures
            r.current() is None,
            r.registrar_calls() == Seq::<(RegistrarCall, bool)>::empty(),
    {
        HotkeyRegistration { active: None, calls: Ghost(Seq::empty()) }
    }

    /// The registered hotkey, if any.
    pub fn active(&self) -> (r: Option<Hotkey>)
        ensures
            r == self.current(),
    {
        self.active
    }

    fn unregister<R: ?Sized + ShortcutRegistrar>(&mut self, registrar: &R, hotkey: &Hotkey) -> (r: Result<(), PortError>)
        ensures
            final(self).registrar_calls() == old(self).registrar_calls().push((RegistrarCall::Unregister(*hotkey), r is Ok)),
            final(self).current() == old(self).current(),
    {
        let r = registrar.unregister(hotkey);
        self.calls = Ghost(self.calls@.push((RegistrarCall::Unregister(*hotkey), r is Ok)));
        r
    }

    fn register<R: ?Sized + ShortcutRegistrar>(&mut self, registrar: &R, hotkey: &Hotkey) -> (r: Result<(), PortError>)
        ensures
            final(self).registrar_calls() == old(self).registrar_calls().push((RegistrarCall::Register(*hotkey), r is Ok)),
            final(self).current() == old(self).current(),
    {
        let r = registrar.register(hotkey);
        self.calls = Ghost(self.calls@.push((RegistrarCall::Register(*hotkey), r is Ok)));
        r
    }

    /// Replaces the registered hotkey: unregisters the previous one, registers the
    /// requested one, and registers the previous one again if that fails. The registered
    /// hotkey is cleared only when the previous one could not be restored.
    pub fn replace<R: ?Sized + ShortcutRegistrar>(&mut self, registrar: &R, requested: &Hotkey) -> (r: Result<(), PortError>)
        ensures
            old(self).current() == Some(*requested) ==> (r is Ok && final(self).current() == old(self).current()),
            r is Ok ==> final(self).current() == Some(*requested),
            r matches Err(e) ==> (final(self).current() == old(self).current() || (final(self).current() is None && old(self).current() is Some && e.spec_operation() == "hotkey_rollback"@ && exists|a: PortError, b: PortError|
                e.spec_detail() == #[trigger] rollback_detail(a, b))),
            exists|t: Seq<(RegistrarCall, bool)>| #[trigger] replacement_trace(old(self).current(), *requested, t, r is Ok)
                && final(self).registrar_calls() == old(self).registrar_calls() + t
                && final(self).current() == registrar_effect(t, old(self).current()),
    {
        let ghost log0 = self.calls@;
        let (unregister, register) = match registration_calls(self.active, *requested) {
            None => {
                proof {
                    lemma_replacement_trace(self.active, *requested, Seq::empty(), Seq::empty(), Seq::empty());
                    lemma_effect_of_short_trace(Seq::empty(), self.active);
                    assert(self.calls@ =~= log0 + Seq::<(RegistrarCall, bool)>::empty());
                }
                return Ok(());
            },
            Some(calls) => calls,
        };
        let previous = self.active;
        if let Some(old) = unregister {
            if let Err(e) = self.unregister(registrar, &old) {
                proof {
                    let t = seq![(RegistrarCall::Unregister(old), false)];
                    lemma_replacement_trace(previous, *requested, t, seq![RegistrarCall::Unregister(old)], seq![false]);
                    lemma_effect_of_short_trace(t, previous);
                    assert(self.calls@ =~= log0 + t);
                }
                return Err(e);
            }
        }
        let ghost t0: Seq<(RegistrarCall, bool)> = match previous {
            Some(p) => seq![(RegistrarCall::Unregister(p), true)],
            None => Seq::empty(),
        };
        assert(self.calls@ =~= log0 + t0);
        let registered = self.register(registrar, &register);
        if let Err(registration_error) = registered {
            let rollback = match previous {
                Some(old) => Some(self.register(registrar, &old)),
                None => None,
            };
            proof {
                match previous {
                    Some(p) => {
                        let back = rollback matches Some(Ok(_));
                        let t = seq![(RegistrarCall::Unregister(p), true), (RegistrarCall::Register(*requested), false), (RegistrarCall::Register(p), back)];
                        lemma_replacement_trace(previous, *requested, t, seq![RegistrarCall::Unregister(p), RegistrarCall::Register(*requested), RegistrarCall::Register(p)], seq![true, false, back]);
                        lemma_effect_of_short_trace(t, previous);
                        assert(self.calls@ =~= log0 + t);
                        assert(!t[1].1);
                    },
                    None => {
                        let t = seq![(RegistrarCall::Register(*requested), false)];
                        lemma_replacement_trace(previous, *requested, t, seq![RegistrarCall::Register(*requested)], seq![false]);
                        lemma_effect_of_short_trace(t, previous);
                        assert(self.calls@ =~= log0 + t);
                        assert(!t[0].1);
                    },
                }
            }
            let (e, cleared) = replacement_failure(registration_error, rollback);
            if cleared {
                self.active = None;
            }
            return Err(e);
        }
        proof {
            match previous {
                Some(p) => {
                    let t = seq![(RegistrarCall::Unregister(p), true), (RegistrarCall::Register(*requested), true)];
                    lemma_replacement_trace(previous, *requested, t, seq![RegistrarCall::Unregister(p), RegistrarCall::Register(*requested)], seq![true, true]);
                    lemma_effect_of_short_trace(t, previous);
                    assert(self.calls@ =~= log0 + t);
                },
                None => {
                    let t = seq![(RegistrarCall::Register(*requested), true)];
                    lemma_replacement_trace(previous, *requested, t, seq![RegistrarCall::Register(*requested)], seq![true]);
                    lemma_effect_of_short_trace(t, previous);
                    assert(self.calls@ =~= log0 + t);
                },
            }
        }
        self.active = Some(*requested);
        Ok(())
    }
}

/// The registration calls a replacement makes: none when the requested hotkey is already
/// registered; otherwise the registered hotkey, if any, is unregistered first and then the
/// requested one is registered.
pub fn registration_calls(active: Option<Hotkey>, requested: Hotkey) -> (r: Option<(Option<Hotkey>, Hotkey)>)
    ensures
        active == Some(requested) ==> r is None,
        active != Some(requested) ==> r == Some((active, requested)),
{
    match active {
        Some(current) => if current == requested {
            None
        } else {
            Some((Some(current), requested))
        },
        None => Some((None, requested)),
    }
}

/// The error of a failed registration, given the outcome of registering the previous
/// hotkey again (none when there was no previous one), and whether the registration is
/// now lost: the registration error when the previous hotkey is back or there was none,
/// else a `hotkey_rollback` error naming both failures.
pub fn replacement_failure(registration: PortError, rollback: Option<Result<(), PortError>>) -> (r: (
    PortError,
    bool,
))
    ensures
        match rollback {
            Some(Err(b)) => r.1 && r.0.spec_operation() == "hotkey_rollback"@ && r.0.spec_detail()
                == rollback_detail(registration, b),
            _ => !r.1 && r.0 == registration,
        },
{
    match rollback {
        Some(Err(rollback_error)) => {
            let mut detail = String::from_str("replacement failed (");
            let a = registration.to_string();
            detail.append(a.as_str());
            detail.append("); previous registration could not be restored (");
            let b = rollback_error.to_string();
            detail.append(b.as_str());
            detail.append(")");
            (PortError::new("hotkey_rollback", detail.as_str()), true)
        },
        _ => (registration, false),
    }
}

} // verus!
