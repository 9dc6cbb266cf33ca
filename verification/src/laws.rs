//! The laws of the run-once machine, stated over the [`crate::guarded::step`]
//! relation that `init`'s contract establishes for every call.

use vstd::prelude::*;
use crate::gate::is_terminal;
use crate::guarded::GuardedSpec;
use crate::guarded::accepts;
use crate::guarded::step;
use crate::initializer::InitError;
use crate::initializer::InitFailure;
use crate::token::Token;
use crate::token::token_for;

verus! {

/// What a single `init` call does to the model: it preserves identity and
/// well-formedness, always leaves the init gate in a terminal state, and runs
/// the initializer exactly on the transition out of `Uninitialized` —
/// never out of a terminal state, from which nothing changes at all.
pub proof fn lemma_step_settles<T, I>(
    pre: GuardedSpec<T, I>,
    outcome: Result<(), InitFailure>,
    post: GuardedSpec<T, I>,
    r: Result<Token, InitError>,
)
    requires
        pre.wf(),
        step(pre, outcome, post, r),
    ensures
        post.wf(),
        post.id == pre.id,
        is_terminal(post.state),
        post.runs == 1,
        is_terminal(pre.state) ==> post == pre,
{
}

/// Idempotence: an `init` call on an already-initialized guarded value
/// changes nothing and yields a token, so two sequential calls return
/// equal tokens, leave the value exactly as it was, and do not run the
/// initializer again.
pub proof fn lemma_init_idempotent<T, I>(
    pre: GuardedSpec<T, I>,
    o1: Result<(), InitFailure>,
    mid: GuardedSpec<T, I>,
    r1: Result<Token, InitError>,
    o2: Result<(), InitFailure>,
    post: GuardedSpec<T, I>,
    r2: Result<Token, InitError>,
)
    requires
        pre.state is Initialized,
        step(pre, o1, mid, r1),
        step(mid, o2, post, r2),
    ensures
        mid == pre,
        post == pre,
        r1 == r2,
        r1 == Result::<Token, InitError>::Ok(token_for(pre.id)),
{
}

/// Poisoning: when the initializer fails, the triggering call observes
/// the original failure, and every call after it — on the now permanently
/// poisoned guarded value — observes the distinct poisoning error and
/// changes nothing.
pub proof fn lemma_poisoning<T, I>(
    pre: GuardedSpec<T, I>,
    failure: InitFailure,
    mid: GuardedSpec<T, I>,
    r1: Result<Token, InitError>,
    o2: Result<(), InitFailure>,
    post: GuardedSpec<T, I>,
    r2: Result<Token, InitError>,
)
    requires
        pre.wf(),
        pre.state is Uninitialized,
        step(pre, Result::<(), InitFailure>::Err(failure), mid, r1),
        step(mid, o2, post, r2),
    ensures
        r1 == Result::<Token, InitError>::Err(InitError::Failure(failure)),
        mid.state is Poisoned,
        mid.runs == 1,
        post == mid,
        post.runs == 1,
        r2 == Result::<Token, InitError>::Err(InitError::Poisoned),
{
}

/// Run-once, for any number of callers: across any sequence of `init`
/// calls on a fresh guarded value — each call one [`step`], however the
/// callers were interleaved by the init gate — the initializer runs exactly
/// once, and after the first call the model never changes again. All
/// calls agree: on success every call returns the same token; on failure
/// the first call observes the initializer's own failure and every later
/// call the poisoning error.
pub proof fn lemma_exactly_once<T, I>(
    states: Seq<GuardedSpec<T, I>>,
    outcomes: Seq<Result<(), InitFailure>>,
    results: Seq<Result<Token, InitError>>,
)
    requires
        outcomes.len() >= 1,
        states.len() == outcomes.len() + 1,
        results.len() == outcomes.len(),
        states[0].wf(),
        states[0].state is Uninitialized,
        forall|i: int|
            0 <= i < outcomes.len() ==> step(states[i], outcomes[i], states[i + 1], results[i]),
    ensures
        forall|i: int| 1 <= i < states.len() ==> #[trigger] states[i] == states[1],
        forall|i: int| 1 <= i < states.len() ==> #[trigger] states[i].runs == 1,
        is_terminal(states[1].state),
        states[1].state is Initialized ==> results[0] == Result::<Token, InitError>::Ok(
            token_for(states[0].id),
        ),
        states[1].state is Initialized ==> forall|i: int|
            0 <= i < results.len() ==> #[trigger] results[i] == results[0],
        states[1].state is Poisoned ==> results[0] == Result::<Token, InitError>::Err(
            InitError::Failure(outcomes[0]->Err_0),
        ),
        states[1].state is Poisoned ==> forall|i: int|
            1 <= i < results.len() ==> #[trigger] results[i] == Result::<Token, InitError>::Err(
                InitError::Poisoned,
            ),
    decreases outcomes.len(),
{
    let n = outcomes.len() as int;
    assert(step(states[0], outcomes[0], states[1], results[0]));
    lemma_step_settles(states[0], outcomes[0], states[1], results[0]);
    if n > 1 {
        let ps = states.drop_last();
        let po = outcomes.drop_last();
        let pr = results.drop_last();
        assert forall|i: int| 0 <= i < po.len() implies step(
            ps[i],
            po[i],
            ps[i + 1],
            pr[i],
        ) by {
            assert(step(states[i], outcomes[i], states[i + 1], results[i]));
        }
        lemma_exactly_once(ps, po, pr);
        assert(states[n - 1] == ps[n - 1]);
        assert(states[n - 1] == states[1]);
        lemma_step_settles(states[n - 1], outcomes[n - 1], states[n], results[n - 1]);
        assert(states[n] == states[1]);
        assert forall|i: int| 1 <= i < states.len() implies #[trigger] states[i] == states[1] by {
            if i < n {
                assert(states[i] == ps[i]);
            }
        }
        assert forall|i: int| 1 <= i < states.len() implies #[trigger] states[i].runs == 1 by {
            assert(states[i] == states[1]);
        }
        if states[1].state is Initialized {
            assert forall|i: int| 0 <= i < results.len() implies #[trigger] results[i] == results[0] by {
                if i < n - 1 {
                    assert(results[i] == pr[i] && results[0] == pr[0]);
                } else {
                    assert(states[n - 1].id == states[0].id);
                    assert(results[n - 1] == Result::<Token, InitError>::Ok(
                        token_for(states[0].id)));
                }
            }
        }
        if states[1].state is Poisoned {
            assert forall|i: int| 1 <= i < results.len() implies #[trigger] results[i]
                == Result::<Token, InitError>::Err(InitError::Poisoned) by {
                if i < n - 1 {
                    assert(results[i] == pr[i]);
                } else {
                    assert(states[n - 1].state is Poisoned);
                }
            }
        }
    }
}

/// Token-value binding, across guarded values: tokens are never
/// interchangeable between two guarded values with distinct identifiers —
/// no token unlocks both.
pub proof fn lemma_token_binding<T1, I1, T2, I2>(
    g1: GuardedSpec<T1, I1>,
    g2: GuardedSpec<T2, I2>,
    token: Token,
)
    requires
        g1.id != g2.id,
    ensures
        !(accepts(g1, token) && accepts(g2, token)),
{
}

/// Token-value binding, across time: once a guarded value is initialized,
/// further `init` calls never change the stored value, so every token
/// read returns the same value.
pub proof fn lemma_value_stable<T, I>(
    pre: GuardedSpec<T, I>,
    outcome: Result<(), InitFailure>,
    post: GuardedSpec<T, I>,
    r: Result<Token, InitError>,
)
    requires
        pre.state is Initialized,
        step(pre, outcome, post, r),
    ensures
        post.value == pre.value,
        post == pre,
{
}

} // verus!
