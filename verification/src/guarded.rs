//! The guarded value: storage, gate and initializer composed into the
//! run-once primitive, exposing `init`.

use vstd::prelude::*;
use crate::gate::GateState;
use crate::gate::InitGate;
use crate::gate::is_terminal;
use crate::initializer::InitError;
use crate::initializer::InitFailure;
use crate::initializer::Initializer;
use crate::storage::StorageCell;
use crate::token::Token;
use crate::token::TokenWrapper;
use crate::token::token_for;

verus! {

broadcast use crate::token::lemma_token_for;

/// The mathematical model of a guarded value: its identifier, the init gate's
/// state, the stored value, the initializer, and how many times the
/// initializer has been run.
pub ghost struct GuardedSpec<T, I> {
    /// The identifier tokens are bound to.
    pub id: u64,
    /// The init gate's state.
    pub state: GateState,
    /// What the storage cell holds (the placeholder until initialization).
    pub value: T,
    /// The initializer, fixed at construction (it may carry state of its
    /// own, which `run` can update).
    pub initializer: I,
    /// How many times the initializer has been executed.
    pub runs: nat,
}

impl<T, I> GuardedSpec<T, I> {
    /// The invariant that holds between calls: the init gate is never left in
    /// the transient `Initializing` state, and the initializer has run
    /// exactly once if and only if initialization was ever attempted.
    pub open spec fn wf(self) -> bool {
        &&& !(self.state is Initializing)
        &&& self.runs == (if self.state is Uninitialized { 0nat } else { 1nat })
    }
}

/// One `init` call, as a relation between the model before (`pre`) and
/// after (`post`), the outcome the initializer reported (relevant only
/// when `pre` is still `Uninitialized`) and the call's result `r`.
///
/// From `Uninitialized` the initializer runs exactly once; its outcome
/// decides between `Initialized` (a token bound to `pre.id`) and
/// `Poisoned` (the initializer's own failure, re-raised). The value and
/// the initializer's state are then whatever the run left behind. From a
/// terminal state nothing changes and the result is determined: an equal
/// token again, or the poisoning error, forever.
pub open spec fn step<T, I>(
    pre: GuardedSpec<T, I>,
    outcome: Result<(), InitFailure>,
    post: GuardedSpec<T, I>,
    r: Result<Token, InitError>,
) -> bool {
    match pre.state {
        GateState::Uninitialized => {
            &&& post.id == pre.id
            &&& post.runs == pre.runs + 1
            &&& match outcome {
                Ok(_) => {
                    &&& post.state is Initialized
                    &&& r == Result::<Token, InitError>::Ok(token_for(pre.id))
                },
                Err(f) => {
                    &&& post.state is Poisoned
                    &&& r == Result::<Token, InitError>::Err(InitError::Failure(f))
                },
            }
        },
        GateState::Initializing => false,
        GateState::Initialized => {
            &&& post == pre
            &&& r == Result::<Token, InitError>::Ok(token_for(pre.id))
        },
        GateState::Poisoned => {
            &&& post == pre
            &&& r == Result::<Token, InitError>::Err(InitError::Poisoned)
        },
    }
}

/// Whether the guarded value modeled by `g` lets `token` unlock it: it is
/// initialized and the token is bound to it.
pub open spec fn accepts<T, I>(g: GuardedSpec<T, I>, token: Token) -> bool {
    g.state is Initialized && token.owner_spec() == g.id
}

/// A potentially-uninitialized singleton with all things needed to
/// initialize it: a storage cell holding the placeholder, the init gate,
/// and the initializer. Call [`init`](Static::init) to gain an access
/// token.
///
/// Each guarded value is identified by the `id` given at construction;
/// tokens are bound to it. Callers declaring several guarded values must
/// give them distinct identifiers — identity is what keeps a token for
/// one of them from unlocking another.
pub struct Static<T, I> {
    id: u64,
    gate: InitGate,
    value: StorageCell<T>,
    initializer: I,
    runs: Ghost<nat>,
}

impl<T, I> View for Static<T, I> {
    type V = GuardedSpec<T, I>;

    closed spec fn view(&self) -> GuardedSpec<T, I> {
        GuardedSpec {
            id: self.id,
            state: self.gate@,
            value: self.value@,
            initializer: self.initializer,
            runs: self.runs@,
        }
    }
}

impl<T, I> Static<T, I> {
    /// A fresh guarded value with identifier `id`, holding `placeholder`
    /// until `initializer` replaces or mutates it.
    pub fn new(id: u64, placeholder: T, initializer: I) -> (r: Self)
        ensures
            r@.wf(),
            r@.id == id,
            r@.state is Uninitialized,
            r@.value == placeholder,
            r@.initializer == initializer,
            r@.runs == 0,
    {
        Static {
            id,
            gate: InitGate::new(),
            value: StorageCell::new(placeholder),
            initializer,
            runs: Ghost(0nat),
        }
    }

    /// The identifier tokens of this guarded value are bound to.
    pub fn id(&self) -> (r: u64)
        ensures
            r == self@.id,
    {
        self.id
    }

    /// The current state of the init gate.
    pub fn state(&self) -> (r: GateState)
        ensures
            r == self@.state,
    {
        self.gate.state()
    }

    /// The initializer (for example to read state it kept).
    pub fn initializer(&self) -> (r: &I)
        ensures
            *r == self@.initializer,
    {
        &self.initializer
    }

    /// Read the value with no further state check. The token's existence
    /// is the caller's proof that this guarded value is initialized; the
    /// body is a bare read.
    pub fn get_value(&self, token: &Token) -> (r: &T)
        requires
            accepts(self@, *token),
        ensures
            *r == self@.value,
    {
        self.value.get()
    }

    /// Read the value after a runtime check of the token's binding:
    /// `Some` exactly when this guarded value is initialized and `token`
    /// was issued for it. A token for a different guarded value never
    /// unlocks this one.
    pub fn try_get_value(&self, token: &Token) -> (r: Option<&T>)
        ensures
            r is Some <==> accepts(self@, *token),
            r matches Some(v) ==> *v == self@.value,
    {
        if self.gate.is_initialized() && token.owner() == self.id {
            Some(self.value.get())
        } else {
            None
        }
    }
}

impl<T, I: Initializer<T>> Static<T, I> {
    /// Settle the init gate from the outcome the initializer reported: normal
    /// completion yields `Initialized` and a token bound to this guarded
    /// value; a failure yields `Poisoned` and re-raises the failure.
    fn settle(&mut self, outcome: Result<(), InitFailure>) -> (r: Result<Token, InitError>)
        requires
            old(self)@.state is Initializing,
        ensures
            final(self)@.id == old(self)@.id,
            final(self)@.value == old(self)@.value,
            final(self)@.initializer == old(self)@.initializer,
            final(self)@.runs == old(self)@.runs,
            match outcome {
                Ok(_) => {
                    &&& final(self)@.state is Initialized
                    &&& r == Result::<Token, InitError>::Ok(token_for(old(self)@.id))
                },
                Err(f) => {
                    &&& final(self)@.state is Poisoned
                    &&& r == Result::<Token, InitError>::Err(InitError::Failure(f))
                },
            },
    {
        match outcome {
            Ok(_) => {
                self.gate.complete();
                Ok(Token::new(self.id))
            },
            Err(f) => {
                self.gate.poison();
                Err(InitError::Failure(f))
            },
        }
    }

    /// Initialize the guarded value if not initialized yet and gain an
    /// access token.
    ///
    /// The first call runs the initializer, exactly once for the lifetime
    /// of the guarded value; every call thereafter is a no-op that
    /// returns an equal token (after success) or the poisoning error
    /// (after failure), forever. The call as a whole is one step of the
    /// [`step`] relation.
    ///
    /// This has to check the init gate's state, so callers already holding a
    /// token should prefer using it over calling `init` again.
    ///
    /// The precondition is the model invariant [`GuardedSpec::wf`], which
    /// [`new`](Static::new) establishes and every call here preserves:
    /// every guarded value reachable through this interface satisfies it,
    /// so an unverified caller has nothing to check before calling.
    pub fn init(&mut self) -> (r: Result<Token, InitError>)
        requires
            old(self)@.wf(),
        ensures
            final(self)@.wf(),
            final(self)@.id == old(self)@.id,
            is_terminal(final(self)@.state),
            r is Ok <==> final(self)@.state is Initialized,
            r matches Ok(t) ==> t == token_for(old(self)@.id) && t.owner_spec() == old(self)@.id,
            exists|outcome: Result<(), InitFailure>|
                step(old(self)@, outcome, final(self)@, r),
            old(self)@.state is Initialized ==> final(self)@ == old(self)@,
            old(self)@.state is Poisoned ==> final(self)@ == old(self)@
                && r == Result::<Token, InitError>::Err(InitError::Poisoned),
    {
        let won = self.gate.try_claim();
        if won {
            let outcome = self.initializer.run(self.value.get_mut());
            self.runs = Ghost(self.runs@ + 1);
            let r = self.settle(outcome);
            proof {
                assert(step(old(self)@, outcome, self@, r));
            }
            r
        } else {
            match self.gate.state() {
                GateState::Initialized => {
                    let t = Token::new(self.id);
                    proof {
                        assert(step(old(self)@, Result::<(), InitFailure>::Ok(()), self@, Result::<Token, InitError>::Ok(t)));
                    }
                    Ok(t)
                },
                GateState::Poisoned => {
                    proof {
                        assert(step(old(self)@, Result::<(), InitFailure>::Ok(()), self@, Result::<Token, InitError>::Err(InitError::Poisoned)));
                    }
                    Err(InitError::Poisoned)
                },
                _ => vstd::pervasive::unreached(),
            }
        }
    }

    /// Like [`init`](Static::init), but hand the token out wrapped in the
    /// caller's own token type.
    pub fn init_wrapped<W: TokenWrapper>(&mut self) -> (r: Result<W, InitError>)
        requires
            old(self)@.wf(),
        ensures
            final(self)@.wf(),
            final(self)@.id == old(self)@.id,
            is_terminal(final(self)@.state),
            r is Ok <==> final(self)@.state is Initialized,
            r matches Ok(w) ==> w.owner_spec() == old(self)@.id,
            r matches Err(e) ==> (exists|outcome: Result<(), InitFailure>|
                step(old(self)@, outcome, final(self)@, Result::<Token, InitError>::Err(e))),
            old(self)@.state is Initialized ==> final(self)@ == old(self)@,
            old(self)@.state is Poisoned ==> final(self)@ == old(self)@
                && (r matches Err(e) && e == InitError::Poisoned),
    {
        match self.init() {
            Ok(t) => Ok(W::wrap(t)),
            Err(e) => Err(e),
        }
    }
}

} // verus!
