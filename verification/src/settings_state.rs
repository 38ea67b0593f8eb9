//! In-memory settings shared by the scan and settings use cases.
use crate::settings::{AppSettings, SettingsModel};
use vstd::prelude::*;

verus! {

/// In-memory settings used on the scan path without disk I/O.
pub struct SettingsState(AppSettings);

impl SettingsState {
    /// The settings held.
    pub closed spec fn current(&self) -> SettingsModel {
        self.0@
    }

    /// Creates state from validated persisted settings.
    pub fn new(settings: AppSettings) -> (r: Self)
        ensures
            r.current() == settings@,
    {
        Self(settings)
    }

    /// Returns a consistent settings snapshot.
    pub fn get(&self) -> (r: AppSettings)
        ensures
            r@ == self.current(),
    {
        self.0.clone()
    }

    /// Borrows the current settings.
    pub fn settings(&self) -> (r: &AppSettings)
        ensures
            r@ == self.current(),
    {
        &self.0
    }

    /// Replaces the settings.
    pub fn replace(&mut self, settings: AppSettings)
        ensures
            final(self).current() == settings@,
    {
        self.0 = settings;
    }
}

} // verus!
