use qrforge::hotkey::Hotkey;
use qrforge::ports::{HotkeyPort, PortError, SettingsRepository, StartupPort};
use qrforge::settings::AppSettings;
use qrforge::settings_service::{SettingsError, SettingsService, SettingsUpdate};
use qrforge::settings_state::SettingsState;
use std::sync::{Arc, Mutex};

#[derive(Default)]
struct Repository {
    saved: Mutex<Vec<AppSettings>>,
}

impl SettingsRepository for Repository {
    fn load(&self) -> Result<AppSettings, PortError> {
        Ok(AppSettings::default())
    }

    fn save(&self, settings: &AppSettings) -> Result<(), PortError> {
        self.saved
            .lock()
            .expect("repository mutex")
            .push(settings.clone());
        Ok(())
    }
}

struct Hotkeys {
    active: Mutex<Option<Hotkey>>,
    rejected: Hotkey,
}

impl HotkeyPort for Hotkeys {
    fn active(&self) -> Option<Hotkey> {
        *self.active.lock().expect("hotkey mutex")
    }

    fn replace(&self, requested: &Hotkey) -> Result<(), PortError> {
        if requested == &self.rejected {
            return Err(PortError::new("hotkey", "shortcut is already in use"));
        }
        *self.active.lock().expect("hotkey mutex") = Some(*requested);
        Ok(())
    }
}

struct FlakyHotkeys {
    active: Mutex<Option<Hotkey>>,
    reject_next: Mutex<bool>,
}

impl HotkeyPort for FlakyHotkeys {
    fn active(&self) -> Option<Hotkey> {
        *self.active.lock().expect("hotkey mutex")
    }

    fn replace(&self, requested: &Hotkey) -> Result<(), PortError> {
        if *self.reject_next.lock().expect("reject mutex") {
            *self.reject_next.lock().expect("reject mutex") = false;
            return Err(PortError::new("hotkey", "transient registration failure"));
        }
        *self.active.lock().expect("hotkey mutex") = Some(*requested);
        Ok(())
    }
}

struct Startup(Mutex<bool>);

impl StartupPort for Startup {
    fn is_enabled(&self) -> Result<bool, PortError> {
        Ok(*self.0.lock().expect("startup mutex"))
    }

    fn set_enabled(&self, enabled: bool) -> Result<(), PortError> {
        *self.0.lock().expect("startup mutex") = enabled;
        Ok(())
    }
}

struct FlakyStartup {
    set_should_fail: Mutex<bool>,
}

impl StartupPort for FlakyStartup {
    fn is_enabled(&self) -> Result<bool, PortError> {
        Ok(false)
    }

    fn set_enabled(&self, _enabled: bool) -> Result<(), PortError> {
        if *self.set_should_fail.lock().expect("startup mutex") {
            *self.set_should_fail.lock().expect("startup mutex") = false;
            return Err(PortError::new("startup", "registration refused"));
        }
        Ok(())
    }
}

struct FlakyRepository {
    save_should_fail: Mutex<bool>,
}

impl SettingsRepository for FlakyRepository {
    fn load(&self) -> Result<AppSettings, PortError> {
        Ok(AppSettings::default())
    }

    fn save(&self, _settings: &AppSettings) -> Result<(), PortError> {
        if *self.save_should_fail.lock().expect("save mutex") {
            *self.save_should_fail.lock().expect("save mutex") = false;
            return Err(PortError::new("repository", "disk full"));
        }
        Ok(())
    }
}

#[test]
fn hotkey_conflict_leaves_previous_registration_and_settings_intact() {
    let rejected: Hotkey = "Ctrl+Alt+X".parse().expect("test hotkey");
    let repository = Arc::new(Repository::default());
    let hotkeys = Arc::new(Hotkeys {
        active: Mutex::new(Some(Hotkey::default())),
        rejected,
    });
    let mut service = SettingsService::new(
        repository.clone(),
        hotkeys.clone(),
        Arc::new(Startup(Mutex::new(false))),
        SettingsState::new(AppSettings::default()),
    );

    let result = service.update(&SettingsUpdate {
        hotkey: rejected.to_string(),
        launch_at_startup: false,
        auto_open_safe_urls: true,
        copy_non_url_payloads: true,
        notifications_enabled: true,
    });

    assert!(matches!(result, Err(SettingsError::HotkeyRegistration(_))));
    assert_eq!(hotkeys.active(), Some(Hotkey::default()));
    assert_eq!(service.state().get(), AppSettings::default());
    assert!(repository
        .saved
        .lock()
        .expect("repository mutex")
        .is_empty());
}

#[test]
fn startup_registration_failure_rolls_back_hotkey() {
    let repository = Arc::new(Repository::default());
    let hotkeys = Arc::new(Hotkeys {
        active: Mutex::new(Some(Hotkey::default())),
        rejected: Hotkey::default(),
    });
    let startup = Arc::new(FlakyStartup {
        set_should_fail: Mutex::new(true),
    });
    let mut service = SettingsService::new(
        repository.clone(),
        hotkeys.clone(),
        startup,
        SettingsState::new(AppSettings::default()),
    );

    let result = service.update(&SettingsUpdate {
        hotkey: "Ctrl+Alt+Y".to_owned(),
        launch_at_startup: true,
        auto_open_safe_urls: true,
        copy_non_url_payloads: true,
        notifications_enabled: true,
    });

    assert!(matches!(result, Err(SettingsError::RollbackFailed)));
    assert_eq!(service.state().get(), AppSettings::default());
}

#[test]
fn startup_failure_with_recoverable_hotkey_rolls_back() {
    let repository = Arc::new(Repository::default());
    let hotkeys = Arc::new(FlakyHotkeys {
        active: Mutex::new(Some(Hotkey::default())),
        reject_next: Mutex::new(false),
    });
    let startup = Arc::new(FlakyStartup {
        set_should_fail: Mutex::new(true),
    });
    let mut service = SettingsService::new(
        repository.clone(),
        hotkeys.clone(),
        startup,
        SettingsState::new(AppSettings::default()),
    );

    let result = service.update(&SettingsUpdate {
        hotkey: "Ctrl+Alt+Y".to_owned(),
        launch_at_startup: true,
        auto_open_safe_urls: true,
        copy_non_url_payloads: true,
        notifications_enabled: true,
    });

    assert!(matches!(result, Err(SettingsError::Startup(_))));
    assert_eq!(hotkeys.active(), Some(Hotkey::default()));
    assert_eq!(service.state().get(), AppSettings::default());
}

#[test]
fn persistence_failure_rolls_back_hotkey_and_startup() {
    let repository = Arc::new(FlakyRepository {
        save_should_fail: Mutex::new(true),
    });
    let hotkeys = Arc::new(FlakyHotkeys {
        active: Mutex::new(Some(Hotkey::default())),
        reject_next: Mutex::new(false),
    });
    let startup = Arc::new(FlakyStartup {
        set_should_fail: Mutex::new(false),
    });
    let mut service = SettingsService::new(
        repository,
        hotkeys.clone(),
        startup,
        SettingsState::new(AppSettings::default()),
    );

    let result = service.update(&SettingsUpdate {
        hotkey: "Ctrl+Alt+Z".to_owned(),
        launch_at_startup: true,
        auto_open_safe_urls: true,
        copy_non_url_payloads: true,
        notifications_enabled: true,
    });

    assert!(matches!(result, Err(SettingsError::Persistence(_))));
    assert_eq!(hotkeys.active(), Some(Hotkey::default()));
    assert_eq!(service.state().get(), AppSettings::default());
}

#[test]
fn default_hotkey_is_ctrl_shift_q() {
    assert_eq!(Hotkey::default().to_string(), "Ctrl+Shift+Q");
    assert_eq!(AppSettings::default().hotkey, Hotkey::default());
}

#[test]
fn settings_snapshot_reports_registered_state() {
    let repository = Arc::new(Repository::default());
    let hotkeys = Arc::new(Hotkeys {
        active: Mutex::new(Some(Hotkey::default())),
        rejected: Hotkey::default(),
    });
    let service = SettingsService::new(
        repository,
        hotkeys.clone(),
        Arc::new(Startup(Mutex::new(false))),
        SettingsState::new(AppSettings::default()),
    );

    let snapshot = service.snapshot();
    assert!(snapshot.hotkey_registered);
    assert_eq!(snapshot.active_hotkey.as_deref(), Some("Ctrl+Shift+Q"));
}

#[test]
fn accepted_update_is_saved_held_and_registered() {
    let repository = Arc::new(Repository::default());
    let hotkeys = Arc::new(Hotkeys {
        active: Mutex::new(Some(Hotkey::default())),
        rejected: Hotkey::default(),
    });
    let startup = Arc::new(Startup(Mutex::new(false)));
    let mut service = SettingsService::new(
        repository.clone(),
        hotkeys.clone(),
        startup.clone(),
        SettingsState::new(AppSettings::default()),
    );
    let snapshot = service
        .update(&SettingsUpdate {
            hotkey: "alt+shift+f5".to_owned(),
            launch_at_startup: true,
            auto_open_safe_urls: false,
            copy_non_url_payloads: false,
            notifications_enabled: false,
        })
        .expect("update");
    let expected = AppSettings {
        hotkey: "Alt+Shift+F5".parse().expect("hotkey"),
        launch_at_startup: true,
        auto_open_safe_urls: false,
        copy_non_url_payloads: false,
        notifications_enabled: false,
        ..AppSettings::default()
    };
    assert_eq!(service.state().get(), expected);
    assert_eq!(snapshot.settings, expected);
    assert_eq!(snapshot.active_hotkey.as_deref(), Some("Alt+Shift+F5"));
    assert_eq!(
        repository.saved.lock().expect("repository mutex").as_slice(),
        [expected]
    );
    assert!(*startup.0.lock().expect("startup mutex"));
}

#[test]
fn invalid_hotkey_is_refused_before_any_platform_change() {
    let repository = Arc::new(Repository::default());
    let hotkeys = Arc::new(Hotkeys {
        active: Mutex::new(None),
        rejected: Hotkey::default(),
    });
    let mut service = SettingsService::new(
        repository.clone(),
        hotkeys.clone(),
        Arc::new(Startup(Mutex::new(false))),
        SettingsState::new(AppSettings::default()),
    );
    let result = service.update(&SettingsUpdate {
        hotkey: "Q".to_owned(),
        launch_at_startup: true,
        auto_open_safe_urls: true,
        copy_non_url_payloads: true,
        notifications_enabled: true,
    });
    assert!(matches!(result, Err(SettingsError::InvalidHotkey(_))));
    assert_eq!(hotkeys.active(), None);
    assert!(repository.saved.lock().expect("repository mutex").is_empty());
    let snapshot = service.snapshot();
    assert!(!snapshot.hotkey_registered);
    assert_eq!(snapshot.active_hotkey, None);
}

#[test]
fn onboarding_completion_is_persisted() {
    let repository = Arc::new(Repository::default());
    let hotkeys = Arc::new(Hotkeys {
        active: Mutex::new(Some(Hotkey::default())),
        rejected: Hotkey::default(),
    });
    let mut service = SettingsService::new(
        repository.clone(),
        hotkeys,
        Arc::new(Startup(Mutex::new(false))),
        SettingsState::new(AppSettings::default()),
    );
    let snapshot = service.complete_onboarding().expect("onboarding");
    assert!(snapshot.settings.onboarding_completed);
    assert!(service.state().get().onboarding_completed);
    assert_eq!(repository.saved.lock().expect("repository mutex").len(), 1);

    let failing = Arc::new(FlakyRepository {
        save_should_fail: Mutex::new(true),
    });
    let mut service = SettingsService::new(
        failing,
        Arc::new(Hotkeys {
            active: Mutex::new(None),
            rejected: Hotkey::default(),
        }),
        Arc::new(Startup(Mutex::new(false))),
        SettingsState::new(AppSettings::default()),
    );
    assert!(matches!(
        service.complete_onboarding(),
        Err(SettingsError::Persistence(_))
    ));
    assert!(!service.state().get().onboarding_completed);
}
