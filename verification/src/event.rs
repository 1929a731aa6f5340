//! One keyboard event as the low-level hook sees it.
use vstd::prelude::*;

verus! {

/// Message code of a key press.
pub const WM_KEYDOWN: u32 = 0x0100;

/// Message code of a key press while Alt is held.
pub const WM_SYSKEYDOWN: u32 = 0x0104;

/// Flag of the hook record: the event was injected, not typed.
pub const LLKHF_INJECTED: u32 = 0x10;

/// Flag of the hook record: Alt is held.
pub const LLKHF_ALTDOWN: u32 = 0x20;

/// Bit of a sampled key state: the key is held down.
pub const KEY_STATE_DOWN: u16 = 0x8000;

/// Bit of a sampled key state: the key is toggled on.
pub const KEY_STATE_TOGGLED: u16 = 0x0001;

/// A keyboard event together with the modifier states sampled when it
/// arrived.  It lives for one invocation of the hook.
#[derive(Clone, Copy, Debug, PartialEq, Eq, Structural)]
pub struct KeyEvent {
    /// Virtual-key code of the physical key.
    pub vk: u16,
    /// The key went down; otherwise it came up.
    pub is_down: bool,
    /// The event was injected by a program, this one included.
    pub injected: bool,
    /// Alt is held.
    pub alt_down: bool,
    /// Shift is held.
    pub shift_down: bool,
    /// Ctrl is held.
    pub ctrl_down: bool,
    /// Caps Lock is on.
    pub caps_on: bool,
}

impl KeyEvent {
    /// The event that the raw values of a hook invocation describe.
    pub open spec fn of_raw(
        message: u32,
        vk_code: u32,
        flags: u32,
        shift_state: u16,
        ctrl_state: u16,
        caps_state: u16,
    ) -> KeyEvent {
        KeyEvent {
            vk: (vk_code % 0x10000) as u16,
            is_down: message == WM_KEYDOWN || message == WM_SYSKEYDOWN,
            injected: flags & LLKHF_INJECTED != 0,
            alt_down: flags & LLKHF_ALTDOWN != 0,
            shift_down: shift_state & KEY_STATE_DOWN != 0,
            ctrl_down: ctrl_state & KEY_STATE_DOWN != 0,
            caps_on: caps_state & KEY_STATE_TOGGLED != 0,
        }
    }

    /// Reads an event out of the hook's message code, the key code and flags
    /// of its record, and the sampled states of Shift, Ctrl and Caps Lock.
    pub fn from_raw(
        message: u32,
        vk_code: u32,
        flags: u32,
        shift_state: u16,
        ctrl_state: u16,
        caps_state: u16,
    ) -> (event: KeyEvent)
        ensures
            event == Self::of_raw(message, vk_code, flags, shift_state, ctrl_state, caps_state),
    {
        KeyEvent {
            vk: (vk_code % 0x10000) as u16,
            is_down: message == WM_KEYDOWN || message == WM_SYSKEYDOWN,
            injected: flags & LLKHF_INJECTED != 0,
            alt_down: flags & LLKHF_ALTDOWN != 0,
            shift_down: shift_state & KEY_STATE_DOWN != 0,
            ctrl_down: ctrl_state & KEY_STATE_DOWN != 0,
            caps_on: caps_state & KEY_STATE_TOGGLED != 0,
        }
    }
}

} // verus!
