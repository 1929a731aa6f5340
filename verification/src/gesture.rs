//! Recognition of the bare Ctrl+Shift chord that switches the engine on and off.
//!
//! The detector remembers one thing: whether an ordinary key went down since
//! the modifiers were last both up.  Releasing Ctrl while Shift is held, or
//! Shift while Ctrl is held, fires the toggle unless such a key was seen.
use vstd::prelude::*;
use crate::event::KeyEvent;
use crate::vk::{VK_LCONTROL, VK_LSHIFT, VK_RCONTROL, VK_RSHIFT, VK_SHIFT};

verus! {

#[derive(Clone, Copy, Debug, PartialEq, Eq, Structural)]
pub struct ToggleState {
    /// An ordinary key went down since Ctrl and Shift were last both up.
    pub other_key_pressed: bool,
}

/// Whether `vk` is one of the two Ctrl keys.
pub open spec fn is_ctrl_key(vk: u16) -> bool {
    vk == VK_LCONTROL || vk == VK_RCONTROL
}

/// Whether `vk` is a Shift key.
pub open spec fn is_shift_key(vk: u16) -> bool {
    vk == VK_SHIFT || vk == VK_LSHIFT || vk == VK_RSHIFT
}

/// A key other than Ctrl and Shift goes down.
pub open spec fn ordinary_down(event: KeyEvent) -> bool {
    event.is_down && !is_ctrl_key(event.vk) && !is_shift_key(event.vk)
}

/// One modifier of the chord comes up while the other is held.
pub open spec fn chord_release(event: KeyEvent) -> bool {
    !event.is_down && ((is_ctrl_key(event.vk) && event.shift_down) || (is_shift_key(event.vk)
        && event.ctrl_down))
}

/// Ctrl or Shift is held when the event arrives.
pub open spec fn modifier_held(event: KeyEvent) -> bool {
    event.ctrl_down || event.shift_down
}

impl ToggleState {
    /// Whether `event` fires the toggle in this state.
    pub open spec fn fires(self, event: KeyEvent) -> bool {
        chord_release(event) && !self.other_key_pressed
    }

    /// The state after `event`.
    pub open spec fn next(self, event: KeyEvent) -> ToggleState {
        ToggleState {
            other_key_pressed: modifier_held(event) && (self.other_key_pressed || ordinary_down(
                event,
            )),
        }
    }

    /// The state after every event of `trace`, in order.
    pub open spec fn run(self, trace: Seq<KeyEvent>) -> ToggleState
        decreases trace.len(),
    {
        if trace.len() == 0 {
            self
        } else {
            self.run(trace.drop_last()).next(trace.last())
        }
    }

    /// Whether the event at position `i` of `trace` fires the toggle, when the
    /// detector starts the trace in this state.
    pub open spec fn fires_at(self, trace: Seq<KeyEvent>, i: int) -> bool {
        self.run(trace.take(i)).fires(trace[i])
    }

    /// The detector at rest.
    pub fn new() -> (state: Self)
        ensures
            !state.other_key_pressed,
    {
        ToggleState { other_key_pressed: false }
    }

    /// Feeds one event to the detector and says whether the toggle fires.
    pub fn observe(&mut self, event: &KeyEvent) -> (fire: bool)
        ensures
            fire == old(self).fires(*event),
            *final(self) == old(self).next(*event),
    {
        let is_ctrl: bool = event.vk == VK_LCONTROL || event.vk == VK_RCONTROL;
        let is_shift: bool = event.vk == VK_SHIFT || event.vk == VK_LSHIFT || event.vk
            == VK_RSHIFT;
        let mut fire: bool = false;
        if event.is_down {
            if !is_ctrl && !is_shift {
                self.other_key_pressed = true;
            }
        } else if !self.other_key_pressed {
            if is_ctrl && event.shift_down {
                fire = true;
            } else if is_shift && event.ctrl_down {
                fire = true;
            }
        }
        if !event.ctrl_down && !event.shift_down {
            self.other_key_pressed = false;
        }
        fire
    }
}

/// A modifier is held at every event from position `from` up to, not
/// including, position `to`.
pub open spec fn held_throughout(trace: Seq<KeyEvent>, from: int, to: int) -> bool {
    forall|k: int| from <= k < to ==> modifier_held(#[trigger] trace[k])
}

/// An ordinary key went down before position `i` and a modifier has been held
/// ever since, or the detector started out disturbed and a modifier has been
/// held from the start.
pub open spec fn disturbed(start: ToggleState, trace: Seq<KeyEvent>, i: int) -> bool {
    ||| start.other_key_pressed && held_throughout(trace, 0, i)
    ||| exists|j: int|
        0 <= j < i && ordinary_down(#[trigger] trace[j]) && held_throughout(trace, j, i)
}

/// What the detector remembers after `i` events is exactly whether the chord
/// was disturbed.
pub proof fn memory_is_disturbance(start: ToggleState, trace: Seq<KeyEvent>, i: int)
    requires
        0 <= i <= trace.len(),
    ensures
        start.run(trace.take(i)).other_key_pressed == disturbed(start, trace, i),
    decreases i,
{
    if i == 0 {
        assert(trace.take(0).len() == 0);
    } else {
        memory_is_disturbance(start, trace, i - 1);
        let before = start.run(trace.take(i - 1));
        assert(trace.take(i).drop_last() =~= trace.take(i - 1));
        assert(trace.take(i).last() == trace[i - 1]);
        assert(start.run(trace.take(i)) == before.next(trace[i - 1]));
        let now = start.run(trace.take(i)).other_key_pressed;
        if now {
            assert(modifier_held(trace[i - 1]));
            if before.other_key_pressed {
                if start.other_key_pressed && held_throughout(trace, 0, i - 1) {
                    assert(held_throughout(trace, 0, i));
                } else {
                    let j = choose|j: int|
                        0 <= j < i - 1 && ordinary_down(#[trigger] trace[j]) && held_throughout(
                            trace,
                            j,
                            i - 1,
                        );
                    assert(held_throughout(trace, j, i));
                }
            } else {
                assert(ordinary_down(trace[i - 1]));
                assert(held_throughout(trace, i - 1, i));
            }
        }
        if disturbed(start, trace, i) {
            if start.other_key_pressed && held_throughout(trace, 0, i) {
                assert(held_throughout(trace, 0, i - 1));
                assert(modifier_held(trace[i - 1]));
            } else {
                let j = choose|j: int|
                    0 <= j < i && ordinary_down(#[trigger] trace[j]) && held_throughout(
                        trace,
                        j,
                        i,
                    );
                assert(modifier_held(trace[i - 1]));
                if j < i - 1 {
                    assert(held_throughout(trace, j, i - 1));
                }
            }
        }
    }
}

/// Whatever came before, an event that finds neither Ctrl nor Shift held
/// puts the detector to rest.
pub proof fn rest_resets_detector(state: ToggleState, event: KeyEvent)
    requires
        !event.ctrl_down,
        !event.shift_down,
    ensures
        !state.next(event).other_key_pressed,
{
}

/// The toggle fires at an event exactly when that event releases one modifier
/// of the chord while the other is held, and no ordinary key went down since
/// the modifiers were last both up.  Nothing in this depends on which
/// modifier was pressed first or which is released first.
pub proof fn toggle_fires_exactly_on_clean_release(
    start: ToggleState,
    trace: Seq<KeyEvent>,
    i: int,
)
    requires
        0 <= i < trace.len(),
    ensures
        start.fires_at(trace, i) <==> chord_release(trace[i]) && !disturbed(start, trace, i),
{
    memory_is_disturbance(start, trace, i);
}

/// An ordinary key that goes down while the chord is held cancels the toggle:
/// as long as a modifier stays held afterwards, no release fires it, even
/// when the ordinary key itself has long been released.
pub proof fn ordinary_key_cancels_toggle(
    start: ToggleState,
    trace: Seq<KeyEvent>,
    pressed: int,
    i: int,
)
    requires
        0 <= pressed < i < trace.len(),
        ordinary_down(trace[pressed]),
        held_throughout(trace, pressed, i),
    ensures
        !start.fires_at(trace, i),
{
    memory_is_disturbance(start, trace, i);
}

/// From rest, with no ordinary key pressed while only one modifier was held:
/// the release of one modifier while the other is held fires the toggle if
/// and only if no ordinary key went down while both were held.
pub proof fn clean_chord_fires(start: ToggleState, trace: Seq<KeyEvent>, i: int)
    requires
        0 <= i < trace.len(),
        !start.other_key_pressed,
        chord_release(trace[i]),
        forall|j: int|
            0 <= j < i && ordinary_down(#[trigger] trace[j]) && held_throughout(trace, j, i)
                ==> trace[j].ctrl_down && trace[j].shift_down,
    ensures
        start.fires_at(trace, i) <==> !exists|j: int|
            0 <= j < i && ordinary_down(#[trigger] trace[j]) && trace[j].ctrl_down
                && trace[j].shift_down && held_throughout(trace, j, i),
{
    memory_is_disturbance(start, trace, i);
}

} // verus!
