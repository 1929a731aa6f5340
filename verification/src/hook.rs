//! The decisions of the keyboard hook, one event at a time.
//!
//! The hook's context is a single object that lives on the hook thread.  For
//! each event it says whether the toggle fires and whether the engine is to
//! be consulted, and with which key.  Events that a program injected pass by
//! without a trace: they reach neither the gesture detector nor the engine,
//! so the hook never reacts to its own output.
use vstd::prelude::*;
use crate::decision::EngineDecision;
use crate::event::KeyEvent;
use crate::foreground::OutputStrategy;
use crate::gesture::{
    chord_release, disturbed, held_throughout, ordinary_down, ordinary_key_cancels_toggle,
    toggle_fires_exactly_on_clean_release, ToggleState,
};
use crate::input::KeyInput;
use crate::key_map::{classify, covered, map_vk_to_core};
use crate::output::{clipboard_text, emitted};

verus! {

/// What the hook must do about one event before it forwards it.
#[derive(Clone, Copy, Debug, PartialEq, Eq, Structural)]
pub struct KeyStep {
    /// Switch the engine on or off and tell the settings window.
    pub toggle: bool,
    /// Consult the engine about a press of this abstract key.
    pub engine_key: Option<u16>,
}

/// The state that the hook carries from one event to the next.
#[derive(Clone, Copy, Debug, PartialEq, Eq, Structural)]
pub struct HookContext {
    pub detector: ToggleState,
}

/// The hook does not look at the event at all: the host asked it to pass the
/// event on (`code` below zero), or the event was injected.
pub open spec fn ignored(code: i32, event: KeyEvent) -> bool {
    code < 0 || event.injected
}

/// The abstract key about which the engine is consulted: that of a key that
/// goes down while neither Ctrl nor Alt is held, if the key is covered.
pub open spec fn engine_key_of(event: KeyEvent) -> Option<u16> {
    if event.is_down && !event.ctrl_down && !event.alt_down {
        classify(event.vk)
    } else {
        None
    }
}

impl HookContext {
    /// The context after one invocation of the hook.
    pub open spec fn after(self, code: i32, event: KeyEvent) -> HookContext {
        if ignored(code, event) {
            self
        } else {
            HookContext { detector: self.detector.next(event) }
        }
    }

    /// What one invocation of the hook asks for.
    pub open spec fn step_of(self, code: i32, event: KeyEvent) -> KeyStep {
        if ignored(code, event) {
            KeyStep { toggle: false, engine_key: None }
        } else {
            KeyStep { toggle: self.detector.fires(event), engine_key: engine_key_of(event) }
        }
    }

    /// The context after the hook was invoked for every event of `trace`, in
    /// order, each with a code that tells it to act.
    pub open spec fn run(self, trace: Seq<KeyEvent>) -> HookContext
        decreases trace.len(),
    {
        if trace.len() == 0 {
            self
        } else {
            self.run(trace.drop_last()).after(0, trace.last())
        }
    }

    /// The context of a hook that has seen no event yet.
    pub fn new() -> (context: Self)
        ensures
            !context.detector.other_key_pressed,
    {
        HookContext { detector: ToggleState::new() }
    }

    /// Handles one invocation of the hook.
    ///
    /// An ignored event changes nothing and asks for nothing.  Every other
    /// event goes through the gesture detector; a key press is then
    /// classified and, unless Ctrl or Alt is held, put to the engine.
    pub fn keyboard_proc(&mut self, code: i32, event: &KeyEvent) -> (step: KeyStep)
        ensures
            *final(self) == old(self).after(code, *event),
            step == old(self).step_of(code, *event),
            event.injected ==> *final(self) == *old(self) && !step.toggle
                && step.engine_key is None,
    {
        if code < 0 || event.injected {
            return KeyStep { toggle: false, engine_key: None };
        }
        let toggle: bool = self.detector.observe(event);
        let mut engine_key: Option<u16> = None;
        if event.is_down && !event.ctrl_down && !event.alt_down {
            engine_key = map_vk_to_core(event.vk);
        }
        KeyStep { toggle, engine_key }
    }
}

/// How far the installation of the hook has come.
#[derive(Clone, Copy, Debug, PartialEq, Eq, Structural)]
pub struct InstallState {
    /// An installation was started; it is never started twice.
    pub attempted: bool,
    /// The hook is in place.
    pub installed: bool,
}

impl InstallState {
    /// The state before any attempt.
    pub fn new() -> (state: Self)
        ensures
            !state.attempted,
            !state.installed,
    {
        InstallState { attempted: false, installed: false }
    }

    /// Records how the attempt to set the hook ended.  After a failure the
    /// process goes on without the hook, and no further attempt is made.
    pub fn record(&mut self, succeeded: bool)
        ensures
            final(self).attempted == old(self).attempted,
            final(self).installed == (old(self).installed || succeeded),
    {
        if succeeded {
            self.installed = true;
        }
    }
}

/// Asks for the installation of the hook and says whether the caller is to
/// start it.  Only the first call is told to: a call while an installation
/// is under way, after it succeeded or after it failed changes nothing.
pub fn install(state: &mut InstallState) -> (attempt: bool)
    ensures
        attempt == !old(state).attempted,
        final(state).attempted,
        final(state).installed == old(state).installed,
{
    let attempt: bool = !state.attempted;
    state.attempted = true;
    attempt
}

/// The toggle fires at an event that the hook looks at exactly when the
/// event releases one modifier of the chord while the other is held and the
/// detector is undisturbed; this goes for a Ctrl release as for a Shift
/// release.  An event that the hook does not look at never fires it.
pub proof fn hook_toggles_on_clean_release(context: HookContext, code: i32, event: KeyEvent)
    ensures
        context.step_of(code, event).toggle <==> !ignored(code, event) && chord_release(event)
            && !context.detector.other_key_pressed,
{
}

/// On typed events the hook's toggle is the detector's: at every position of
/// a trace without injected events the hook fires the toggle exactly when
/// the detector does.
pub proof fn hook_follows_detector(context: HookContext, trace: Seq<KeyEvent>, i: int)
    requires
        0 <= i < trace.len(),
        forall|k: int| 0 <= k < trace.len() ==> !(#[trigger] trace[k]).injected,
    ensures
        context.run(trace.take(i)).detector == context.detector.run(trace.take(i)),
        context.run(trace.take(i)).step_of(0, trace[i]).toggle == context.detector.fires_at(
            trace,
            i,
        ),
    decreases i,
{
    if i == 0 {
        assert(trace.take(0).len() == 0);
    } else {
        hook_follows_detector(context, trace, i - 1);
        assert(trace.take(i).drop_last() =~= trace.take(i - 1));
        assert(trace.take(i).last() == trace[i - 1]);
    }
}

/// Through the hook, on typed events: a release of Ctrl while Shift is held,
/// or of Shift while Ctrl is held, fires the toggle exactly when no ordinary
/// key went down since the modifiers were last both up.
pub proof fn hook_toggle_fires_exactly_on_clean_release(
    context: HookContext,
    trace: Seq<KeyEvent>,
    i: int,
)
    requires
        0 <= i < trace.len(),
        forall|k: int| 0 <= k < trace.len() ==> !(#[trigger] trace[k]).injected,
    ensures
        context.run(trace.take(i)).step_of(0, trace[i]).toggle <==> chord_release(trace[i])
            && !disturbed(context.detector, trace, i),
{
    hook_follows_detector(context, trace, i);
    toggle_fires_exactly_on_clean_release(context.detector, trace, i);
}

/// Through the hook, on typed events: after an ordinary key went down while
/// the chord was held, no release fires the toggle as long as a modifier
/// stays held, the later release of the second modifier included.
pub proof fn hook_ordinary_key_cancels_toggle(
    context: HookContext,
    trace: Seq<KeyEvent>,
    pressed: int,
    i: int,
)
    requires
        0 <= pressed < i < trace.len(),
        forall|k: int| 0 <= k < trace.len() ==> !(#[trigger] trace[k]).injected,
        ordinary_down(trace[pressed]),
        held_throughout(trace, pressed, i),
    ensures
        !context.run(trace.take(i)).step_of(0, trace[i]).toggle,
{
    hook_follows_detector(context, trace, i);
    ordinary_key_cancels_toggle(context.detector, trace, pressed, i);
}

/// The engine is consulted about an event that the hook looks at exactly
/// when a covered key goes down while neither Ctrl nor Alt is held.
pub proof fn engine_sees_only_plain_presses(context: HookContext, code: i32, event: KeyEvent)
    ensures
        context.step_of(code, event).engine_key is Some <==> !ignored(code, event)
            && event.is_down && !event.ctrl_down && !event.alt_down && covered(event.vk),
        ignored(code, event) ==> context.after(code, event) == context && !context.step_of(
            code,
            event,
        ).toggle,
{
}

/// A typed press of a covered key without Ctrl and Alt is put to the engine,
/// and where the engine asks for nothing, nothing follows: no event is
/// emitted, the clipboard is left alone and the key is not withheld, so the
/// event goes on to the application as it came.
pub proof fn no_action_passes_the_key(
    context: HookContext,
    code: i32,
    event: KeyEvent,
    strategy: OutputStrategy,
    clipboard_set: bool,
)
    requires
        !ignored(code, event),
        event.is_down,
        !event.ctrl_down,
        !event.alt_down,
        covered(event.vk),
    ensures
        context.step_of(code, event).engine_key == classify(event.vk),
        context.step_of(code, event).engine_key is Some,
        emitted(EngineDecision::NoAction, strategy, clipboard_set) == Seq::<KeyInput>::empty(),
        clipboard_text(EngineDecision::NoAction, strategy) is None,
        EngineDecision::NoAction.replacement_of() is None,
{
}

/// The events of `trace` that were typed, not injected.
pub open spec fn typed_events(trace: Seq<KeyEvent>) -> Seq<KeyEvent> {
    trace.filter(|event: KeyEvent| !event.injected)
}

/// Injected events leave no trace: after any run of events the hook is in the
/// state in which the typed events alone would have left it, and the gesture
/// detector has seen exactly the typed events.
pub proof fn injected_events_leave_no_trace(context: HookContext, trace: Seq<KeyEvent>)
    ensures
        context.run(trace) == context.run(typed_events(trace)),
        context.run(trace).detector == context.detector.run(typed_events(trace)),
    decreases trace.len(),
{
    reveal(Seq::filter);
    if trace.len() > 0 {
        let front = trace.drop_last();
        injected_events_leave_no_trace(context, front);
        if !trace.last().injected {
            let typed = typed_events(trace);
            assert(typed.drop_last() =~= typed_events(front));
            assert(typed.last() == trace.last());
        }
    }
}

} // verus!
