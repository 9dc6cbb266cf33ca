//! The init gate: the state machine that serializes concurrent
//! initialization attempts into exactly one run of the initializer.

use vstd::prelude::*;

verus! {

/// The phase a guarded value's initialization is in.
///
/// `Uninitialized` and `Initializing` are transient; `Initialized` and
/// `Poisoned` are terminal: once the init gate reaches one of them its state
/// never changes again.
#[derive(Clone, Copy, PartialEq, Eq, Structural, Debug)]
pub enum GateState {
    /// No caller has claimed the right to initialize yet.
    Uninitialized,
    /// Exactly one caller has claimed the init gate and is running the initializer.
    Initializing,
    /// The initializer returned normally; the stored value is final.
    Initialized,
    /// The initializer failed; the guarded value is permanently unusable.
    Poisoned,
}

/// Whether `s` is a terminal state: one the init gate can never leave.
pub open spec fn is_terminal(s: GateState) -> bool {
    s is Initialized || s is Poisoned
}

/// The init gate's transition relation: every step an [`InitGate`] operation
/// takes satisfies this, so a state can only evolve along
/// `Uninitialized -> Initializing -> (Initialized | Poisoned)`.
pub open spec fn gate_step(pre: GateState, post: GateState) -> bool {
    ||| post == pre
    ||| (pre is Uninitialized && post is Initializing)
    ||| (pre is Initializing && post is Initialized)
    ||| (pre is Initializing && post is Poisoned)
}

/// Law: terminal states are absorbing. A gate that has reached
/// `Initialized` or `Poisoned` stays there under every allowed step.
pub proof fn lemma_terminal_absorbing(pre: GateState, post: GateState)
    requires
        is_terminal(pre),
        gate_step(pre, post),
    ensures
        post == pre,
{
}

/// The synchronization object coordinating initialization attempts.
///
/// Exactly one caller wins the claim out of `Uninitialized`; the winner
/// settles it with `complete` or `poison`, and everyone else only
/// ever observes a terminal state.
pub struct InitGate {
    state: GateState,
}

impl View for InitGate {
    type V = GateState;

    closed spec fn view(&self) -> GateState {
        self.state
    }
}

impl InitGate {
    /// A fresh gate: nobody has attempted initialization yet.
    pub fn new() -> (r: Self)
        ensures
            r@ is Uninitialized,
    {
        InitGate { state: GateState::Uninitialized }
    }

    /// The current state of the init gate.
    pub fn state(&self) -> (r: GateState)
        ensures
            r == self@,
    {
        self.state
    }

    /// Whether the init gate has reached `Initialized`.
    pub fn is_initialized(&self) -> (r: bool)
        ensures
            r == (self@ is Initialized),
    {
        matches!(self.state, GateState::Initialized)
    }

    /// Attempt to claim the one-time transition to `Initializing`.
    ///
    /// The caller wins exactly when the init gate was still `Uninitialized`;
    /// a loser leaves the state unchanged.
    pub fn try_claim(&mut self) -> (won: bool)
        ensures
            won == (old(self)@ is Uninitialized),
            final(self)@ == (if won { GateState::Initializing } else { old(self)@ }),
            gate_step(old(self)@, final(self)@),
    {
        match self.state {
            GateState::Uninitialized => {
                self.state = GateState::Initializing;
                true
            },
            _ => false,
        }
    }

    /// The winning caller reports that the initializer returned normally.
    pub fn complete(&mut self)
        requires
            old(self)@ is Initializing,
        ensures
            final(self)@ is Initialized,
            gate_step(old(self)@, final(self)@),
    {
        self.state = GateState::Initialized;
    }

    /// The winning caller reports that the initializer failed.
    pub fn poison(&mut self)
        requires
            old(self)@ is Initializing,
        ensures
            final(self)@ is Poisoned,
            gate_step(old(self)@, final(self)@),
    {
        self.state = GateState::Poisoned;
    }
}

} // verus!
