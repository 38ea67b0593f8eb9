//! Persisted user preferences.
use crate::hotkey::{default_hotkey, Hotkey};
use crate::monitor::MonitorId;
use vstd::prelude::*;

verus! {

/// Current on-disk settings schema version.
pub const SETTINGS_SCHEMA_VERSION: u32 = 1;

/// Validated user settings shared by the host and typed IPC view.
#[derive(Debug, PartialEq, Eq)]
pub struct AppSettings {
    /// Schema version written to disk.
    pub schema_version: u32,
    /// Active scan shortcut preference.
    pub hotkey: Hotkey,
    /// Whether the operating system starts QRForge after sign-in.
    pub launch_at_startup: bool,
    /// Whether a single validated HTTP(S) result is opened automatically.
    pub auto_open_safe_urls: bool,
    /// Whether UTF-8 payloads that are not openable are copied.
    pub copy_non_url_payloads: bool,
    /// Whether native notifications and tray feedback are shown.
    pub notifications_enabled: bool,
    /// Display chosen for scanning; `None` scans the primary display.
    pub scan_monitor_id: Option<MonitorId>,
    /// Whether the first-run local-processing introduction was completed.
    pub onboarding_completed: bool,
}

/// The settings as plain values.
pub struct SettingsModel {
    pub schema_version: u32,
    pub hotkey: Hotkey,
    pub launch_at_startup: bool,
    pub auto_open_safe_urls: bool,
    pub copy_non_url_payloads: bool,
    pub notifications_enabled: bool,
    pub scan_monitor_id: Option<Seq<char>>,
    pub onboarding_completed: bool,
}

impl View for AppSettings {
    type V = SettingsModel;

    open spec fn view(&self) -> SettingsModel {
        SettingsModel {
            schema_version: self.schema_version,
            hotkey: self.hotkey,
            launch_at_startup: self.launch_at_startup,
            auto_open_safe_urls: self.auto_open_safe_urls,
            copy_non_url_payloads: self.copy_non_url_payloads,
            notifications_enabled: self.notifications_enabled,
            scan_monitor_id: match self.scan_monitor_id {
                Some(id) => Some(id@),
                None => None,
            },
            onboarding_completed: self.onboarding_completed,
        }
    }
}

/// The built-in preferences.
pub open spec fn default_settings() -> SettingsModel {
    SettingsModel {
        schema_version: SETTINGS_SCHEMA_VERSION,
        hotkey: default_hotkey(),
        launch_at_startup: false,
        auto_open_safe_urls: true,
        copy_non_url_payloads: true,
        notifications_enabled: true,
        scan_monitor_id: None,
        onboarding_completed: false,
    }
}

impl Default for AppSettings {
    fn default() -> (r: Self)
        ensures
            r@ == default_settings(),
    {
        Self {
            schema_version: SETTINGS_SCHEMA_VERSION,
            hotkey: Hotkey::default(),
            launch_at_startup: false,
            auto_open_safe_urls: true,
            copy_non_url_payloads: true,
            notifications_enabled: true,
            scan_monitor_id: None,
            onboarding_completed: false,
        }
    }
}

impl Clone for AppSettings {
    fn clone(&self) -> (r: Self)
        ensures
            r@ == self@,
    {
        Self {
            schema_version: self.schema_version,
            hotkey: self.hotkey,
            launch_at_startup: self.launch_at_startup,
            auto_open_safe_urls: self.auto_open_safe_urls,
            copy_non_url_payloads: self.copy_non_url_payloads,
            notifications_enabled: self.notifications_enabled,
            scan_monitor_id: match &self.scan_monitor_id {
                Some(id) => Some(id.clone()),
                None => None,
            },
            onboarding_completed: self.onboarding_completed,
        }
    }
}

} // verus!
