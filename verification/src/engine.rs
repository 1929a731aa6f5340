//! The bridge between the hook and the transformation engine.
//!
//! The engine itself is a black box outside this crate.  The wrapper keeps the
//! settings that the engine was last configured with, says how the engine is
//! to be configured after each change, and fixes what the engine is asked for
//! each key.  Whoever owns the engine applies the configuration and makes the
//! call, under the lock that guards both, and releases the lock before any
//! synthetic input is sent.
use vstd::prelude::*;
use crate::settings::Settings;

verus! {

/// The engine's configuration, switch by switch.
#[derive(Clone, Copy, Debug, PartialEq, Eq, Structural)]
pub struct CoreConfig {
    pub method: u8,
    pub enabled: bool,
    pub modern_tone: bool,
    pub auto_capitalize: bool,
    pub skip_w_shortcut: bool,
    pub bracket_shortcut: bool,
    pub english_auto_restore: bool,
}

/// What the engine is asked about one key press.
#[derive(Clone, Copy, Debug, PartialEq, Eq, Structural)]
pub struct KeyRequest {
    /// Abstract key code.
    pub key: u16,
    /// Caps Lock is on.
    pub caps: bool,
    /// Ctrl is held; the hook never consults the engine while it is.
    pub ctrl: bool,
}

/// The configuration that `settings` ask of the engine.
pub open spec fn config_of(settings: Settings) -> CoreConfig {
    CoreConfig {
        method: settings.method.code_of(),
        enabled: settings.enabled,
        modern_tone: settings.modern_tone,
        auto_capitalize: settings.auto_capitalize,
        skip_w_shortcut: !settings.w_as_u_at_start,
        bracket_shortcut: settings.bracket_as_uo,
        english_auto_restore: settings.auto_restore_english,
    }
}

/// `settings` with the engine switched the other way.
pub open spec fn toggled(settings: Settings) -> Settings {
    Settings { enabled: !settings.enabled, ..settings }
}

pub struct EngineWrapper {
    settings: Settings,
}

impl View for EngineWrapper {
    type V = Settings;

    closed spec fn view(&self) -> Settings {
        self.settings
    }
}

impl EngineWrapper {
    /// A wrapper for an engine that is about to be configured by `settings`.
    pub fn new(settings: Settings) -> (wrapper: Self)
        ensures
            wrapper@ == settings,
    {
        EngineWrapper { settings }
    }

    /// The configuration that the engine must carry now.
    pub fn core_config(&self) -> (config: CoreConfig)
        ensures
            config == config_of(self@),
    {
        CoreConfig {
            method: self.settings.method.code(),
            enabled: self.settings.enabled,
            modern_tone: self.settings.modern_tone,
            auto_capitalize: self.settings.auto_capitalize,
            skip_w_shortcut: !self.settings.w_as_u_at_start,
            bracket_shortcut: self.settings.bracket_as_uo,
            english_auto_restore: self.settings.auto_restore_english,
        }
    }

    /// What to ask the engine for the key `keycode`.  Shift is not passed on:
    /// the engine reads capitals from Caps Lock and the key alone.
    pub fn process_key(&self, keycode: u16, shift: bool, capslock: bool) -> (request: KeyRequest)
        ensures
            request == (KeyRequest { key: keycode, caps: capslock, ctrl: false }),
    {
        KeyRequest { key: keycode, caps: capslock, ctrl: false }
    }

    /// Takes over `new_settings` and returns the configuration to apply to
    /// the engine.  The settings are then due to be stored.
    pub fn update_settings(&mut self, new_settings: Settings) -> (config: CoreConfig)
        ensures
            final(self)@ == new_settings,
            config == config_of(new_settings),
    {
        self.settings = new_settings;
        self.core_config()
    }

    /// Switches the engine on if it was off and off if it was on, and returns
    /// the new state to apply to the engine.  Every other setting stays.
    pub fn toggle_enabled(&mut self) -> (enabled: bool)
        ensures
            final(self)@ == toggled(old(self)@),
            enabled == !old(self)@.enabled,
    {
        self.settings.enabled = !self.settings.enabled;
        self.settings.enabled
    }

    /// A copy of the current settings.
    pub fn get_settings(&self) -> (settings: Settings)
        ensures
            settings == self@,
    {
        self.settings
    }
}

/// Toggling twice leaves the settings as they were.
pub proof fn toggle_twice_is_identity(settings: Settings)
    ensures
        toggled(toggled(settings)) == settings,
{
}

/// A toggle changes the engine's configuration in its on/off switch alone.
pub proof fn toggle_changes_only_enabled(settings: Settings)
    ensures
        config_of(toggled(settings)) == (CoreConfig {
            enabled: !settings.enabled,
            ..config_of(settings)
        }),
{
}

} // verus!
