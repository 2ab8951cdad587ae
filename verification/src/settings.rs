//! The switch that pauses automatic login, and the files of the daemon.

use vstd::prelude::*;

use crate::paths::{self, Environment};

verus! {

#[derive(Debug, Clone, Copy, PartialEq, Eq, Structural)]
pub struct Settings {
    /// When false, the daemon never logs in.
    pub enabled: bool,
}

/// Automatic login is on unless it was paused.
pub fn default_enabled() -> (enabled: bool)
    ensures
        enabled,
{
    true
}

impl Default for Settings {
    fn default() -> (settings: Self)
        ensures
            settings.enabled,
    {
        Settings { enabled: default_enabled() }
    }
}

/// The settings that a start finds in force, and those that it stores.
pub open spec fn opened(stored: Option<Settings>) -> (Settings, Option<Settings>) {
    match stored {
        Some(settings) => (settings, None),
        None => (Settings { enabled: true }, Some(Settings { enabled: true })),
    }
}

/// The settings in force after an attempt to load them again.
pub open spec fn reloaded(current: Settings, loaded: Result<Settings, String>) -> Settings {
    match loaded {
        Ok(settings) => settings,
        Err(_) => current,
    }
}

/// The settings in force. They outlive a file that cannot be read.
#[derive(Debug)]
pub struct Manager {
    settings: Settings,
}

impl View for Manager {
    type V = Settings;

    closed spec fn view(&self) -> Settings {
        self.settings
    }
}

impl Manager {
    /// The settings that are stored, or else the default ones, which are then
    /// to be stored.
    pub fn from_stored(stored: Option<Settings>) -> (start: (Self, Option<Settings>))
        ensures
            (start.0@, start.1) == opened(stored),
    {
        match stored {
            Some(settings) => (Manager { settings }, None),
            None => {
                let settings = Settings::default();
                (Manager { settings }, Some(settings))
            },
        }
    }

    /// The settings in force.
    pub fn get(&self) -> (settings: Settings)
        ensures
            settings == self@,
    {
        self.settings
    }

    /// Pauses or resumes automatic login. The settings that come back are to
    /// be stored.
    pub fn set_enabled(&mut self, enabled: bool) -> (settings: Settings)
        ensures
            settings == (Settings { enabled }),
            final(self)@ == settings,
    {
        self.settings = Settings { enabled };
        self.settings
    }

    /// Takes the settings that were loaded. A failure leaves those in force.
    pub fn reload(&mut self, loaded: Result<Settings, String>) -> (r: Result<Settings, String>)
        ensures
            r == loaded,
            final(self)@ == reloaded(old(self)@, loaded),
    {
        if let Ok(settings) = &loaded {
            self.settings = *settings;
        }
        loaded
    }
}

/// What was set and stored is what a later start finds, and what a first start
/// stores is what the next one finds.
pub proof fn stored_settings_round_trip(settings: Settings)
    ensures
        opened(Some(settings)) == (settings, None::<Settings>),
        opened(opened(None).1).0 == opened(None).0,
{
}

/// Loading the settings again puts those in force that are stored, or the
/// default ones where none are, whatever was in force before. A failure leaves
/// what was in force.
pub proof fn reload_follows_the_store(current: Settings, stored: Option<Settings>, error: String)
    ensures
        stored matches Some(settings) ==> reloaded(current, Ok(opened(stored).0)) == settings,
        stored is None ==> reloaded(current, Ok(opened(stored).0)).enabled,
        reloaded(current, Err(error)) == current,
{
}

/// The settings file.
pub fn settings_path(env: &Environment) -> (path: Result<Vec<u8>, String>)
    ensures
        paths::found(
            path,
            paths::two_below(paths::state_root(*env), "wifilogin"@, "settings.json"@),
        ),
{
    paths::below(paths::state_dir(env), "wifilogin", "settings.json")
}

/// The file that the daemon writes after every step, for the status command.
pub fn daemon_state_path(env: &Environment) -> (path: Result<Vec<u8>, String>)
    ensures
        paths::found(
            path,
            paths::two_below(paths::state_root(*env), "wifilogin"@, "daemon.json"@),
        ),
{
    paths::below(paths::state_dir(env), "wifilogin", "daemon.json")
}

/// The socket whose datagrams wake the daemon.
pub fn control_socket_path(env: &Environment) -> (path: Result<Vec<u8>, String>)
    ensures
        paths::found(
            path,
            paths::two_below(paths::state_root(*env), "wifilogin"@, "control.sock"@),
        ),
{
    paths::below(paths::state_dir(env), "wifilogin", "control.sock")
}

} // verus!
