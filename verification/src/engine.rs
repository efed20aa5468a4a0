//! Observable contract of the composition engine.
//!
//! The character-composition automaton itself is an external native
//! component; what the handler relies on is only the protocol of its answers:
//! each key press yields one [`InputResult`], and the results determine which
//! single unit is currently buffered (shown as preedit, still uncommitted).
//! [`InputEngine`] tracks exactly that buffered unit, so that flushing on
//! reset, and the preedit window lifecycle, can be stated and proved.

use vstd::prelude::*;

verus! {

/// The kind of outcome the composition engine reports for one key press.
#[derive(Clone, Copy, Debug, PartialEq, Eq, Structural)]
pub enum InputResultType {
    /// Unrelated key: forward it unchanged, composition state untouched.
    Bypass,
    /// Key absorbed with no visible effect.
    Consume,
    /// Discard the in-progress composition without committing text.
    ClearPreedit,
    /// Finalize `char1`, then forward the key that caused it.
    CommitBypass,
    /// Finalize `char1`.
    Commit,
    /// Finalize two units, `char1` then `char2`, from one keystroke.
    CommitCommit,
    /// Finalize `char1` and immediately start a new unit `char2`.
    CommitPreedit,
    /// `char1` is the in-progress unit; keep composing.
    Preedit,
}

/// One answer of the composition engine to a key press.
///
/// `char1` and `char2` are meaningful only for the kinds whose reaction in
/// the table above names them.
#[derive(Clone, Copy, Debug, PartialEq, Eq, Structural)]
pub struct InputResult {
    pub ty: InputResultType,
    pub char1: char,
    pub char2: char,
}

/// Which unit stays buffered in the engine once a key-press result `r` has
/// been applied to a state that buffered `cur`.
pub open spec fn preedit_after(cur: Option<char>, r: InputResult) -> Option<char> {
    match r.ty {
        InputResultType::Bypass => cur,
        InputResultType::Consume => cur,
        InputResultType::ClearPreedit => None,
        InputResultType::CommitBypass => None,
        InputResultType::Commit => None,
        InputResultType::CommitCommit => None,
        InputResultType::CommitPreedit => Some(r.char2),
        InputResultType::Preedit => Some(r.char1),
    }
}

/// Relation between a composition state before a reset, the state after it,
/// and the flushed unit the reset returned.
pub open spec fn reset_post(pre: Option<char>, post: Option<char>, flushed: Option<char>) -> bool {
    &&& flushed == pre
    &&& post is None
}

/// Observable composition state of one input context's engine.
///
/// One instance exists per input context and lives exactly as long as it.
pub struct InputEngine {
    /// The in-progress, uncommitted unit, if any.
    pub preedit: Option<char>,
}

impl InputEngine {
    /// Fresh composition state: nothing buffered.
    pub fn new() -> (r: Self)
        ensures
            r.preedit is None,
    {
        InputEngine { preedit: None }
    }

    /// Applies the automaton's answer to one key press and hands it back.
    ///
    /// Never fails: unrecognized input degrades to `Bypass` in the answer
    /// itself, so there is no error case to model.
    pub fn press_key(&mut self, ret: InputResult) -> (r: InputResult)
        ensures
            r == ret,
            final(self).preedit == preedit_after(old(self).preedit, ret),
    {
        self.preedit = match ret.ty {
            InputResultType::Bypass => self.preedit,
            InputResultType::Consume => self.preedit,
            InputResultType::ClearPreedit => None,
            InputResultType::CommitBypass => None,
            InputResultType::Commit => None,
            InputResultType::CommitCommit => None,
            InputResultType::CommitPreedit => Some(ret.char2),
            InputResultType::Preedit => Some(ret.char1),
        };
        ret
    }

    /// Flushes the partially composed unit: returns it if one was buffered
    /// and clears the state either way.
    pub fn reset(&mut self) -> (r: Option<char>)
        ensures
            reset_post(old(self).preedit, final(self).preedit, r),
    {
        let r = self.preedit;
        self.preedit = None;
        r
    }
}

/// Law: resetting is idempotent.  Whatever the first reset flushed, a second
/// reset right after it finds an empty state, flushes nothing and changes
/// nothing, so two consecutive resets never commit two characters.
pub proof fn lemma_reset_idempotent(
    e0: Option<char>,
    e1: Option<char>,
    r1: Option<char>,
    e2: Option<char>,
    r2: Option<char>,
)
    requires
        reset_post(e0, e1, r1),
        reset_post(e1, e2, r2),
    ensures
        r2 is None,
        e2 == e1,
{
}

} // verus!
