//! Turning an engine decision into batches of synthetic input.
//!
//! Every replacement starts with the key presses that erase the old text.
//! The new text follows either as character events in the same batch, or over
//! the clipboard with a paste chord in a batch of its own.  Each batch is
//! handed to the host's injection call as a whole, in the order given here.
use vstd::prelude::*;
use crate::decision::{EngineDecision, Replacement};
use crate::foreground::{ForegroundTarget, OutputStrategy};
use crate::input::{create_key_input, create_unicode_input, KeyInput};
use crate::vk::{VK_BACK, VK_LCONTROL, VK_V};
use crate::wide::{is_scalar, push_scalar, scalar_units};

verus! {

/// The work that one decision asks of the host.
#[derive(Clone, Debug, PartialEq, Eq)]
pub struct OutputPlan {
    /// The first batch of events; nothing is injected where it is empty.
    pub batch: Vec<KeyInput>,
    /// The NUL-terminated UTF-16 text to put on the clipboard before the
    /// paste chord, where the text goes by the clipboard.
    pub clipboard: Option<Vec<u16>>,
}

/// `count` presses and releases of the key that erases backwards.
pub open spec fn backspace_events(count: nat) -> Seq<KeyInput>
    decreases count,
{
    if count == 0 {
        Seq::empty()
    } else {
        backspace_events((count - 1) as nat) + seq![
            KeyInput::key(VK_BACK, false),
            KeyInput::key(VK_BACK, true),
        ]
    }
}

/// A press and a release for each character, in order, none left out; each
/// event carries its character.
pub open spec fn unicode_events(chars: Seq<u32>) -> Seq<KeyInput>
    decreases chars.len(),
{
    if chars.len() == 0 {
        Seq::empty()
    } else {
        unicode_events(chars.drop_last()) + seq![
            KeyInput::unicode(chars.last(), false),
            KeyInput::unicode(chars.last(), true),
        ]
    }
}

/// The UTF-16 code units of the scalar values among `chars`, in order; code
/// points that are no scalar values are left out.
pub open spec fn clipboard_units(chars: Seq<u32>) -> Seq<u16>
    decreases chars.len(),
{
    if chars.len() == 0 {
        Seq::empty()
    } else if is_scalar(chars.last()) {
        clipboard_units(chars.drop_last()) + scalar_units(chars.last())
    } else {
        clipboard_units(chars.drop_last())
    }
}

/// Ctrl down, V down, V up, Ctrl up.
pub open spec fn paste_chord() -> Seq<KeyInput> {
    seq![
        KeyInput::key(VK_LCONTROL, false),
        KeyInput::key(VK_V, false),
        KeyInput::key(VK_V, true),
        KeyInput::key(VK_LCONTROL, true),
    ]
}

/// The first batch of a decision under a strategy.
pub open spec fn first_batch(decision: EngineDecision, strategy: OutputStrategy) -> Seq<KeyInput> {
    match decision.replacement_of() {
        None => Seq::empty(),
        Some(r) => match strategy {
            OutputStrategy::Standard => backspace_events(r.backspace as nat) + unicode_events(
                r.chars@,
            ),
            OutputStrategy::ClipboardPaste => backspace_events(r.backspace as nat),
        },
    }
}

/// The clipboard text of a decision under a strategy: none for the standard
/// strategy, and none where no character is left to paste.
pub open spec fn clipboard_text(decision: EngineDecision, strategy: OutputStrategy) -> Option<
    Seq<u16>,
> {
    match decision.replacement_of() {
        None => None,
        Some(r) => if strategy == OutputStrategy::ClipboardPaste && clipboard_units(
            r.chars@,
        ).len() > 0 {
            Some(clipboard_units(r.chars@).push(0u16))
        } else {
            None
        },
    }
}

/// The events that follow the attempt to set the clipboard: the paste chord
/// after a success, nothing after a failure.
pub open spec fn paste_events(clipboard_set: bool) -> Seq<KeyInput> {
    if clipboard_set {
        paste_chord()
    } else {
        Seq::empty()
    }
}

/// Every event that one decision puts into the input stream, in order, given
/// whether the clipboard could be set.
pub open spec fn emitted(
    decision: EngineDecision,
    strategy: OutputStrategy,
    clipboard_set: bool,
) -> Seq<KeyInput> {
    if clipboard_text(decision, strategy) is Some {
        first_batch(decision, strategy) + paste_events(clipboard_set)
    } else {
        first_batch(decision, strategy)
    }
}

/// The erasing events are `count` pairs: a press of the erasing key at each
/// even position, its release at each odd one.
pub proof fn backspace_events_are_pairs(count: nat)
    ensures
        backspace_events(count).len() == 2 * count,
        forall|i: int|
            0 <= i < 2 * count ==> #[trigger] backspace_events(count)[i] == KeyInput::key(
                VK_BACK,
                i % 2 == 1,
            ),
    decreases count,
{
    if count > 0 {
        backspace_events_are_pairs((count - 1) as nat);
    }
}

/// A text is typed as one pair per character, in order: the press of
/// character `i` at position `2 * i`, its release right after.
pub proof fn unicode_events_are_pairs(chars: Seq<u32>)
    ensures
        unicode_events(chars).len() == 2 * chars.len(),
        forall|i: int|
            0 <= i < chars.len() ==> {
                &&& #[trigger] unicode_events(chars)[2 * i] == KeyInput::unicode(chars[i], false)
                &&& unicode_events(chars)[2 * i + 1] == KeyInput::unicode(chars[i], true)
            },
    decreases chars.len(),
{
    if chars.len() > 0 {
        let front = chars.drop_last();
        unicode_events_are_pairs(front);
        assert forall|i: int| 0 <= i < chars.len() implies {
            &&& #[trigger] unicode_events(chars)[2 * i] == KeyInput::unicode(chars[i], false)
            &&& unicode_events(chars)[2 * i + 1] == KeyInput::unicode(chars[i], true)
        } by {
            if i < front.len() {
                assert(unicode_events(front)[2 * i] == KeyInput::unicode(front[i], false));
            }
        }
    }
}

/// A decision that asks for nothing puts nothing into the input stream and
/// nothing on the clipboard, and the key that led to it is not withheld.
pub proof fn no_action_emits_nothing(strategy: OutputStrategy, clipboard_set: bool)
    ensures
        emitted(EngineDecision::NoAction, strategy, clipboard_set) == Seq::<KeyInput>::empty(),
        clipboard_text(EngineDecision::NoAction, strategy) is None,
        EngineDecision::NoAction.replacement_of() is None,
{
}

/// Under the standard strategy a replacement is the erasing events followed
/// by the character events and nothing else; the clipboard is left alone.
pub proof fn standard_output(decision: EngineDecision, clipboard_set: bool)
    requires
        decision.replacement_of() is Some,
    ensures
        emitted(decision, OutputStrategy::Standard, clipboard_set) == backspace_events(
            decision.replacement_of()->0.backspace as nat,
        ) + unicode_events(decision.replacement_of()->0.chars@),
        clipboard_text(decision, OutputStrategy::Standard) is None,
{
}

/// Under the clipboard strategy a replacement is the erasing events followed,
/// where there is text and the clipboard took it, by the paste chord.
pub proof fn clipboard_output(decision: EngineDecision)
    requires
        decision.replacement_of() is Some,
        clipboard_units(decision.replacement_of()->0.chars@).len() > 0,
    ensures
        emitted(decision, OutputStrategy::ClipboardPaste, true) == backspace_events(
            decision.replacement_of()->0.backspace as nat,
        ) + paste_chord(),
        clipboard_text(decision, OutputStrategy::ClipboardPaste) == Some(
            clipboard_units(decision.replacement_of()->0.chars@).push(0u16),
        ),
{
}

/// Where the clipboard cannot be set, the old text is still erased and
/// nothing is inserted: the correction stays half done.
pub proof fn clipboard_failure_keeps_erasure(decision: EngineDecision)
    requires
        decision.replacement_of() is Some,
    ensures
        emitted(decision, OutputStrategy::ClipboardPaste, false) == backspace_events(
            decision.replacement_of()->0.backspace as nat,
        ),
{
    assert(backspace_events(decision.replacement_of()->0.backspace as nat) + Seq::<
        KeyInput,
    >::empty() =~= backspace_events(decision.replacement_of()->0.backspace as nat));
}

/// The first batch followed by the paste batch, where the plan calls for a
/// paste, is everything that the decision emits.
pub proof fn plan_is_complete(
    decision: EngineDecision,
    strategy: OutputStrategy,
    clipboard_set: bool,
)
    ensures
        emitted(decision, strategy, clipboard_set) == first_batch(decision, strategy) + (
        if clipboard_text(decision, strategy) is Some {
            paste_events(clipboard_set)
        } else {
            Seq::empty()
        }),
{
    assert(first_batch(decision, strategy) + Seq::<KeyInput>::empty() =~= first_batch(
        decision,
        strategy,
    ));
}

/// Appends `count` presses and releases of the key that erases backwards.
pub fn push_backspaces(batch: &mut Vec<KeyInput>, count: u8)
    ensures
        final(batch)@ == old(batch)@ + backspace_events(count as nat),
{
    let mut done: u8 = 0;
    while done < count
        invariant
            done <= count,
            batch@ == old(batch)@ + backspace_events(done as nat),
        decreases count - done,
    {
        batch.push(create_key_input(VK_BACK, false));
        batch.push(create_key_input(VK_BACK, true));
        done += 1;
        assert(batch@ =~= old(batch)@ + backspace_events(done as nat));
    }
}

/// Appends a press and a release for each character of `chars`.
pub fn push_unicode(batch: &mut Vec<KeyInput>, chars: &Vec<u32>)
    ensures
        final(batch)@ == old(batch)@ + unicode_events(chars@),
{
    let mut i: usize = 0;
    while i < chars.len()
        invariant
            i <= chars@.len(),
            batch@ == old(batch)@ + unicode_events(chars@.take(i as int)),
        decreases chars@.len() - i,
    {
        let c: u32 = chars[i];
        batch.push(create_unicode_input(c, false));
        batch.push(create_unicode_input(c, true));
        proof {
            assert(chars@.take(i + 1).drop_last() =~= chars@.take(i as int));
            assert(batch@ =~= old(batch)@ + unicode_events(chars@.take(i + 1)));
        }
        i += 1;
    }
    proof {
        assert(chars@.take(chars@.len() as int) =~= chars@);
    }
}

/// Encodes the scalar values among `chars` as UTF-16.
pub fn encode_scalars(chars: &Vec<u32>) -> (units: Vec<u16>)
    ensures
        units@ == clipboard_units(chars@),
{
    let mut units: Vec<u16> = Vec::new();
    let mut i: usize = 0;
    while i < chars.len()
        invariant
            i <= chars@.len(),
            units@ == clipboard_units(chars@.take(i as int)),
        decreases chars@.len() - i,
    {
        let c: u32 = chars[i];
        proof {
            assert(chars@.take(i + 1).drop_last() =~= chars@.take(i as int));
        }
        if c < 0xD800 || (0xE000 <= c && c <= 0x10FFFF) {
            push_scalar(&mut units, c);
        }
        i += 1;
    }
    proof {
        assert(chars@.take(chars@.len() as int) =~= chars@);
    }
    units
}

/// Plans the synthetic input for `decision` when `target` holds the focus.
///
/// The first batch erases; under the standard strategy it also types the
/// replacement.  Under the clipboard strategy the plan names the text to put
/// on the clipboard, and `paste_batch` gives what to inject afterwards.
pub fn send_replacement(decision: &EngineDecision, target: &ForegroundTarget) -> (plan: OutputPlan)
    ensures
        plan.batch@ == first_batch(*decision, target.strategy_of()),
        decision.replacement_of() is None ==> plan.batch@.len() == 0 && plan.clipboard is None,
        plan.clipboard is Some <==> clipboard_text(*decision, target.strategy_of()) is Some,
        plan.clipboard is Some ==> plan.clipboard->0@ == clipboard_text(
            *decision,
            target.strategy_of(),
        )->0,
{
    let mut batch: Vec<KeyInput> = Vec::new();
    let replacement: &Replacement = match decision.replacement() {
        Some(r) => r,
        None => {
            return OutputPlan { batch, clipboard: None };
        },
    };
    push_backspaces(&mut batch, replacement.backspace);
    match target.strategy() {
        OutputStrategy::Standard => {
            push_unicode(&mut batch, &replacement.chars);
            OutputPlan { batch, clipboard: None }
        },
        OutputStrategy::ClipboardPaste => {
            let mut text: Vec<u16> = encode_scalars(&replacement.chars);
            if text.len() > 0 {
                text.push(0u16);
                OutputPlan { batch, clipboard: Some(text) }
            } else {
                OutputPlan { batch, clipboard: None }
            }
        },
    }
}

/// The batch to inject after the attempt to set the clipboard: the paste
/// chord if the clipboard took the text, nothing if it did not, so that a
/// stale clipboard is never pasted.
pub fn paste_batch(clipboard_set: bool) -> (batch: Vec<KeyInput>)
    ensures
        batch@ == paste_events(clipboard_set),
{
    let mut batch: Vec<KeyInput> = Vec::new();
    if clipboard_set {
        batch.push(create_key_input(VK_LCONTROL, false));
        batch.push(create_key_input(VK_V, false));
        batch.push(create_key_input(VK_V, true));
        batch.push(create_key_input(VK_LCONTROL, true));
    }
    assert(batch@ =~= paste_events(clipboard_set));
    batch
}

} // verus!
