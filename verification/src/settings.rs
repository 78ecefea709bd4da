//! Settings of the application.
//!
//! The service owns the default values and the conversion between the contract
//! and the storage. The storage knows only key and value pairs, so a new setting
//! needs no schema migration.

use vstd::prelude::*;

use crate::error::EgressError;
use crate::ports::SettingsRepository;
use crate::text::str_equal;

verus! {

/// Key of the setting of what closing the main window does.
pub const CLOSE_BEHAVIOR_KEY: &'static str = "shell.close_behavior";

/// What the application does when the main window is closed.
#[derive(Debug, Clone, Copy, PartialEq, Eq)]
pub enum CloseBehavior {
    /// Hide the window and keep running: the proxy keeps accepting connections.
    ///
    /// The default: the proxy is meant to run all the time.
    HideToTray,
    /// Quit the application together with the listeners.
    Quit,
}

impl Default for CloseBehavior {
    fn default() -> (behavior: Self)
        ensures
            behavior == CloseBehavior::HideToTray,
    {
        CloseBehavior::HideToTray
    }
}

impl CloseBehavior {
    /// Text of the behavior in the storage and the contract.
    pub open spec fn spec_text(self) -> Seq<char> {
        match self {
            CloseBehavior::HideToTray => "hide_to_tray"@,
            CloseBehavior::Quit => "quit"@,
        }
    }

    /// The behavior written as `input`, if any.
    pub open spec fn spec_parse(input: Seq<char>) -> Option<CloseBehavior> {
        if input == "hide_to_tray"@ {
            Some(CloseBehavior::HideToTray)
        } else if input == "quit"@ {
            Some(CloseBehavior::Quit)
        } else {
            None
        }
    }

    /// Text of the behavior in the storage and the contract.
    pub fn as_str(self) -> (text: &'static str)
        ensures
            text@ == self.spec_text(),
    {
        match self {
            CloseBehavior::HideToTray => "hide_to_tray",
            CloseBehavior::Quit => "quit",
        }
    }

    /// Parses a stored value.
    pub fn parse(input: &str) -> (behavior: Option<Self>)
        ensures
            behavior == CloseBehavior::spec_parse(input@),
    {
        if str_equal(input, "hide_to_tray") {
            Some(CloseBehavior::HideToTray)
        } else if str_equal(input, "quit") {
            Some(CloseBehavior::Quit)
        } else {
            None
        }
    }
}

/// Every behavior reads back from its own text.
pub proof fn lemma_close_behavior_text_round_trip(behavior: CloseBehavior)
    ensures
        CloseBehavior::spec_parse(behavior.spec_text()) == Some(behavior),
{
    reveal_strlit("hide_to_tray");
    reveal_strlit("quit");
    assert("quit"@ != "hide_to_tray"@) by {
        assert("quit"@.len() != "hide_to_tray"@.len());
    }
}

/// Settings of the shell that the user changes.
#[derive(Debug, Clone, Copy, PartialEq, Eq)]
pub struct ShellSettings {
    /// What closing the main window does.
    pub close_behavior: CloseBehavior,
}

impl Default for ShellSettings {
    fn default() -> (settings: Self)
        ensures
            settings.close_behavior == CloseBehavior::HideToTray,
    {
        ShellSettings { close_behavior: CloseBehavior::default() }
    }
}

/// The behavior a stored value stands for: a missing or unknown value means
/// the default, so that one stale record cannot break the interface.
pub open spec fn stored_close_behavior(stored: Option<Seq<char>>) -> CloseBehavior {
    match stored {
        Some(text) => match CloseBehavior::spec_parse(text) {
            Some(behavior) => behavior,
            None => CloseBehavior::HideToTray,
        },
        None => CloseBehavior::HideToTray,
    }
}

/// The behavior of a stored value, as [`stored_close_behavior`] states it.
pub fn close_behavior_from_stored(stored: Option<&str>) -> (behavior: CloseBehavior)
    ensures
        behavior == stored_close_behavior(match stored { Some(text) => Some(text@), None => None }),
{
    match stored {
        Some(text) => match CloseBehavior::parse(text) {
            Some(behavior) => behavior,
            None => CloseBehavior::default(),
        },
        None => CloseBehavior::default(),
    }
}

/// The key and value under which `behavior` is stored.
pub fn close_behavior_entry(behavior: CloseBehavior) -> (entry: (&'static str, &'static str))
    ensures
        entry.0@ == CLOSE_BEHAVIOR_KEY@,
        entry.1@ == behavior.spec_text(),
        CloseBehavior::spec_parse(entry.1@) == Some(behavior),
{
    proof {
        lemma_close_behavior_text_round_trip(behavior);
    }
    (CLOSE_BEHAVIOR_KEY, behavior.as_str())
}

/// Use-cases of the application settings.
#[derive(Debug)]
pub struct SettingsService<R: SettingsRepository> {
    repository: R,
}

impl<R: SettingsRepository> SettingsService<R> {
    /// Creates the service on top of an implementation of the port.
    pub fn new(repository: R) -> (service: Self)
        ensures
            service.repository() == repository,
    {
        SettingsService { repository }
    }

    /// The storage the service works on.
    pub closed spec fn repository(&self) -> R {
        self.repository
    }

    /// Settings of the shell.
    ///
    /// A missing setting means the default value; so does a value the
    /// application does not know, for example one left by another version.
    ///
    /// # Errors
    ///
    /// Returns the storage error when the settings cannot be read.
    pub fn shell_settings(&self) -> (result: Result<ShellSettings, EgressError>)
    {
        match self.close_behavior() {
            Ok(close_behavior) => Ok(ShellSettings { close_behavior }),
            Err(error) => Err(error),
        }
    }

    /// Changes what closing the main window does and returns the settings as
    /// they are read back.
    ///
    /// The value written is the one [`close_behavior_entry`] gives; what the
    /// storage keeps and reads back is its own state.
    ///
    /// # Errors
    ///
    /// Returns the storage error when the value cannot be written or read.
    pub fn set_close_behavior(&self, behavior: CloseBehavior) -> (result: Result<ShellSettings, EgressError>)
    {
        let (key, value) = close_behavior_entry(behavior);
        match self.repository.set_setting(key, value) {
            Ok(()) => self.shell_settings(),
            Err(error) => Err(error),
        }
    }

    /// Reads what closing the window does.
    fn close_behavior(&self) -> (result: Result<CloseBehavior, EgressError>)
    {
        match self.repository.get_setting(CLOSE_BEHAVIOR_KEY) {
            Ok(stored) => {
                let behavior = match &stored {
                    Some(text) => close_behavior_from_stored(Some(text.as_str())),
                    None => close_behavior_from_stored(None),
                };
                Ok(behavior)
            },
            Err(error) => Err(error),
        }
    }
}

} // verus!
