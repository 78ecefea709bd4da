use std::collections::HashMap;
use std::sync::Mutex;

use egresskeeper_core::error::EgressError;
use egresskeeper_core::ports::SettingsRepository;
use egresskeeper_core::settings::{
    close_behavior_entry, close_behavior_from_stored, CloseBehavior, SettingsService, ShellSettings, CLOSE_BEHAVIOR_KEY,
};

/// Settings storage in memory.
#[derive(Debug, Default)]
struct InMemorySettings {
    values: Mutex<HashMap<String, String>>,
}

impl InMemorySettings {
    fn with_value(key: &str, value: &str) -> Self {
        let storage = Self::default();
        storage
            .values
            .lock()
            .expect("lock")
            .insert(key.to_owned(), value.to_owned());

        storage
    }
}

impl SettingsRepository for InMemorySettings {
    fn get_setting(&self, key: &str) -> Result<Option<String>, EgressError> {
        Ok(self.values.lock().expect("lock").get(key).cloned())
    }

    fn set_setting(&self, key: &str, value: &str) -> Result<(), EgressError> {
        self.values
            .lock()
            .expect("lock")
            .insert(key.to_owned(), value.to_owned());

        Ok(())
    }
}

/// Settings storage that always fails.
#[derive(Debug)]
struct BrokenSettings;

impl SettingsRepository for BrokenSettings {
    fn get_setting(&self, _key: &str) -> Result<Option<String>, EgressError> {
        Err(EgressError::storage_message("locked"))
    }

    fn set_setting(&self, _key: &str, _value: &str) -> Result<(), EgressError> {
        Err(EgressError::storage_message("locked"))
    }
}

#[test]
fn missing_setting_yields_default() {
    let service = SettingsService::new(InMemorySettings::default());

    let settings = service.shell_settings().expect("settings");

    assert_eq!(settings.close_behavior, CloseBehavior::HideToTray);
    assert_eq!(settings.close_behavior, CloseBehavior::default());
}

#[test]
fn setting_round_trips_through_storage() {
    let service = SettingsService::new(InMemorySettings::default());

    let saved = service
        .set_close_behavior(CloseBehavior::Quit)
        .expect("saved");

    assert_eq!(saved.close_behavior, CloseBehavior::Quit);
    assert_eq!(
        service.shell_settings().expect("settings").close_behavior,
        CloseBehavior::Quit
    );
}

#[test]
fn unknown_stored_value_falls_back_to_default() {
    let service = SettingsService::new(InMemorySettings::with_value(CLOSE_BEHAVIOR_KEY, "explode"));

    let settings = service.shell_settings().expect("settings");

    assert_eq!(settings.close_behavior, CloseBehavior::default());
}

#[test]
fn close_behavior_text_round_trips() {
    assert_eq!(CloseBehavior::Quit.as_str(), "quit");
    assert_eq!(CloseBehavior::HideToTray.as_str(), "hide_to_tray");
    assert_eq!(CloseBehavior::parse("hide_to_tray"), Some(CloseBehavior::HideToTray));
    for behavior in [CloseBehavior::HideToTray, CloseBehavior::Quit] {
        assert_eq!(CloseBehavior::parse(behavior.as_str()), Some(behavior));
    }
    assert_eq!(CloseBehavior::parse("Quit"), None);
}

#[test]
fn stored_values_map_to_behaviors() {
    assert_eq!(close_behavior_from_stored(None), CloseBehavior::HideToTray);
    assert_eq!(close_behavior_from_stored(Some("quit")), CloseBehavior::Quit);
    assert_eq!(close_behavior_from_stored(Some("")), CloseBehavior::HideToTray);
    assert_eq!(ShellSettings::default().close_behavior, CloseBehavior::HideToTray);
    assert_eq!(CLOSE_BEHAVIOR_KEY, "shell.close_behavior");
}

#[test]
fn storage_failures_are_reported() {
    let service = SettingsService::new(BrokenSettings);

    assert!(service.shell_settings().is_err());
    assert!(service.set_close_behavior(CloseBehavior::Quit).is_err());
}

#[test]
fn close_behavior_is_stored_under_its_key_as_its_text() {
    assert_eq!(close_behavior_entry(CloseBehavior::Quit), ("shell.close_behavior", "quit"));
    assert_eq!(
        close_behavior_entry(CloseBehavior::HideToTray),
        ("shell.close_behavior", "hide_to_tray")
    );

    let storage = InMemorySettings::default();
    let service = SettingsService::new(storage);
    service.set_close_behavior(CloseBehavior::Quit).expect("saved");
    let stored = service.shell_settings().expect("read back");
    assert_eq!(stored.close_behavior, CloseBehavior::Quit);
}
