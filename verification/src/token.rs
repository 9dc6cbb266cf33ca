//! Capability tokens: unforgeable-by-convention proof that a specific
//! guarded value completed initialization.
//!
//! A token stores nothing but the identifier of its owning guarded value;
//! all tokens for the same owner are equal. Token existence (obtained only
//! from a successful `init`) is the proof that lets the read path skip any
//! further state check.

use vstd::prelude::*;

verus! {

/// Proof that the guarded value with identifier `owner` completed
/// initialization.
///
/// Tokens are freely copyable and comparable; two tokens are equal exactly
/// when they were issued for the same guarded value.
#[derive(Clone, Copy, PartialEq, Eq, Structural, PartialOrd, Ord, Hash, Debug)]
#[verifier::ext_equal]
pub struct Token {
    owner: u64,
}

/// The token value bound to the guarded value with identifier `owner`:
/// since a token carries nothing else, this is the one token every
/// successful `init` call on that guarded value returns.
pub closed spec fn token_for(owner: u64) -> Token {
    Token { owner }
}

/// What `token_for` promises: the token it denotes is bound to exactly
/// the given owner, and is the only token so bound.
pub broadcast proof fn lemma_token_for(owner: u64)
    ensures
        (#[trigger] token_for(owner)).owner_spec() == owner,
        forall|t: Token| t.owner_spec() == owner ==> t == token_for(owner),
{
    assert forall|t: Token| t.owner_spec() == owner implies t == token_for(owner) by {
        assert(t =~= token_for(owner));
    }
}

impl Token {
    /// The identifier of the guarded value this token was issued for.
    pub closed spec fn owner_spec(&self) -> u64 {
        self.owner
    }

    /// Issue a token for the guarded value with identifier `owner`.
    ///
    /// Only `init` on a guarded value should call this, and only once the
    /// gate has reached `Initialized`: a token is a proof of that fact.
    pub(crate) fn new(owner: u64) -> (r: Self)
        ensures
            r == token_for(owner),
            r.owner_spec() == owner,
    {
        Token { owner }
    }

    /// The identifier of the owning guarded value, for a runtime
    /// binding check.
    pub fn owner(&self) -> (r: u64)
        ensures
            r == self.owner_spec(),
    {
        self.owner
    }
}

/// Law: a token carries nothing beyond the identity of its owner, so all
/// tokens issued for the same guarded value are equal.
pub proof fn lemma_tokens_of_same_owner_equal(t1: Token, t2: Token)
    requires
        t1.owner_spec() == t2.owner_spec(),
    ensures
        t1 == t2,
{
    assert(t1 =~= t2);
}

/// A user-defined wrapper around [`Token`], so each guarded value can hand
/// out its own named token type while keeping the owner binding visible in
/// contracts.
pub trait TokenWrapper: Sized {
    /// The identifier of the guarded value the wrapped token was issued for.
    spec fn owner_spec(&self) -> u64;

    /// Wrap a raw token without changing which guarded value it proves
    /// initialization of.
    fn wrap(token: Token) -> (r: Self)
        ensures
            r.owner_spec() == token.owner_spec(),
    ;

    /// The wrapped raw token, still bound to the same guarded value.
    fn token(&self) -> (r: Token)
        ensures
            r.owner_spec() == self.owner_spec(),
    ;
}

impl TokenWrapper for Token {
    open spec fn owner_spec(&self) -> u64 {
        Token::owner_spec(self)
    }

    fn wrap(token: Token) -> (r: Self) {
        token
    }

    fn token(&self) -> (r: Token) {
        *self
    }
}

} // verus!
