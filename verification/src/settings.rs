//! The user's configuration.
use vstd::prelude::*;

verus! {

/// The typing convention by which keys turn into diacritics.
#[derive(Clone, Copy, Debug, PartialEq, Eq, Structural)]
pub enum InputMethod {
    Telex,
    Vni,
}

impl InputMethod {
    /// The number by which the engine knows the method.
    pub open spec fn code_of(self) -> u8 {
        match self {
            InputMethod::Telex => 0,
            InputMethod::Vni => 1,
        }
    }

    /// The number by which the engine knows the method.
    pub fn code(self) -> (code: u8)
        ensures
            code == self.code_of(),
    {
        match self {
            InputMethod::Telex => 0,
            InputMethod::Vni => 1,
        }
    }

    /// The method that a selection index of the method list stands for:
    /// index one is VNI, every other index Telex.
    pub fn from_selection(index: isize) -> (method: Self)
        ensures
            method == if index == 1 {
                InputMethod::Vni
            } else {
                InputMethod::Telex
            },
    {
        if index == 1 {
            InputMethod::Vni
        } else {
            InputMethod::Telex
        }
    }
}

#[derive(Clone, Copy, Debug, PartialEq, Eq, Structural)]
pub struct Settings {
    pub enabled: bool,
    pub method: InputMethod,
    pub modern_tone: bool,
    pub auto_capitalize: bool,
    pub spell_check: bool,
    pub is_first_run: bool,
    pub w_as_u_at_start: bool,
    pub bracket_as_uo: bool,
    pub run_with_system: bool,
    pub auto_switch_mode: bool,
    pub auto_restore_english: bool,
}

/// The value of a switch that is on unless the stored settings say otherwise.
pub fn default_true() -> (on: bool)
    ensures
        on,
{
    true
}

impl Settings {
    /// The settings of a first run.
    pub open spec fn initial() -> Settings {
        Settings {
            enabled: true,
            method: InputMethod::Telex,
            modern_tone: false,
            auto_capitalize: true,
            spell_check: false,
            is_first_run: true,
            w_as_u_at_start: true,
            bracket_as_uo: true,
            run_with_system: false,
            auto_switch_mode: false,
            auto_restore_english: false,
        }
    }

    /// The settings to start with: what the store held, or those of a first
    /// run where it held nothing readable.
    pub fn load(stored: Option<Settings>) -> (settings: Settings)
        ensures
            settings == match stored {
                Some(s) => s,
                None => Settings::initial(),
            },
    {
        match stored {
            Some(s) => s,
            None => Settings::default(),
        }
    }
}

impl Default for Settings {
    fn default() -> (settings: Self)
        ensures
            settings == Settings::initial(),
    {
        Settings {
            enabled: true,
            method: InputMethod::Telex,
            modern_tone: false,
            auto_capitalize: default_true(),
            spell_check: false,
            is_first_run: true,
            w_as_u_at_start: default_true(),
            bracket_as_uo: default_true(),
            run_with_system: false,
            auto_switch_mode: false,
            auto_restore_english: false,
        }
    }
}

} // verus!
