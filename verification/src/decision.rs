//! What the engine decides about one key press.
use vstd::prelude::*;

verus! {

/// Action code: nothing changes.
pub const ACTION_NONE: u8 = 0;

/// Action code: text is replaced.
pub const ACTION_SEND: u8 = 1;

/// Action code: the typed text is put back.
pub const ACTION_RESTORE: u8 = 2;

/// What to erase and what to type in its place.
#[derive(Clone, Debug, PartialEq, Eq)]
pub struct Replacement {
    /// How many characters before the caret are erased.
    pub backspace: u8,
    /// The characters typed afterwards, as code points, in order.
    pub chars: Vec<u32>,
}

#[derive(Clone, Debug, PartialEq, Eq)]
pub enum EngineDecision {
    /// The key passes through untouched.
    NoAction,
    /// The text before the caret is corrected.
    Send(Replacement),
    /// The text before the caret is put back as it was typed.
    Restore(Replacement),
}

impl EngineDecision {
    /// The replacement that the decision asks for, if it asks for one.
    pub open spec fn replacement_of(self) -> Option<Replacement> {
        match self {
            EngineDecision::NoAction => None,
            EngineDecision::Send(r) => Some(r),
            EngineDecision::Restore(r) => Some(r),
        }
    }

    /// Builds the decision from the fields of the engine's result record:
    /// the action code, how many characters to erase, and the character
    /// buffer, of which the first `count` entries are in use.
    pub fn from_raw(action: u8, backspace: u8, chars: &[u32], count: u8) -> (decision: Self)
        requires
            count <= chars@.len(),
        ensures
            match decision {
                EngineDecision::NoAction => action != ACTION_SEND && action != ACTION_RESTORE,
                EngineDecision::Send(r) => action == ACTION_SEND && r.backspace == backspace
                    && r.chars@ == chars@.take(count as int),
                EngineDecision::Restore(r) => action == ACTION_RESTORE && r.backspace
                    == backspace && r.chars@ == chars@.take(count as int),
            },
    {
        if action != ACTION_SEND && action != ACTION_RESTORE {
            return EngineDecision::NoAction;
        }
        let mut taken: Vec<u32> = Vec::new();
        let mut i: usize = 0;
        while i < count as usize
            invariant
                count <= chars@.len(),
                i <= count,
                taken@ == chars@.take(i as int),
            decreases count - i,
        {
            taken.push(chars[i]);
            proof {
                assert(chars@.take(i + 1) =~= chars@.take(i as int).push(chars@[i as int]));
            }
            i += 1;
        }
        let replacement = Replacement { backspace, chars: taken };
        if action == ACTION_SEND {
            EngineDecision::Send(replacement)
        } else {
            EngineDecision::Restore(replacement)
        }
    }

    /// The replacement to carry out, or `None` where the key passes untouched.
    pub fn replacement(&self) -> (r: Option<&Replacement>)
        ensures
            r is Some <==> self.replacement_of() is Some,
            r is Some ==> *r->0 == self.replacement_of()->0,
    {
        match self {
            EngineDecision::NoAction => None,
            EngineDecision::Send(r) => Some(r),
            EngineDecision::Restore(r) => Some(r),
        }
    }

    /// Whether the key event itself is withheld from the application: it is
    /// exactly when the decision replaces text.
    pub fn swallows_key(&self) -> (swallow: bool)
        ensures
            swallow <==> self.replacement_of() is Some,
    {
        match self {
            EngineDecision::NoAction => false,
            _ => true,
        }
    }
}

} // verus!
