use vstd::prelude::*;

verus! {

/// Declares `cancel_this::CancelChain`, the crate's concrete trigger-chain
/// type: an opaque, queryable cancellation signal that any of the crate's
/// triggers (atomics, timers, OS signals) can be pushed into.
#[verifier::external_type_specification]
#[verifier::external_body]
pub struct ExCancelChain(cancel_this::CancelChain);

/// An explicit cooperative-cancellation capability, handed to a driving type
/// at construction and consulted once at the start of every poll.
///
/// An inert token never reports cancellation; a watching token asks the
/// trigger chain it was built from, whose answer depends on outside state
/// (another thread's trigger, a timer), so nothing more is promised of it.
pub struct CancelToken {
    chain: Option<cancel_this::CancelChain>,
}

impl CancelToken {
    /// Whether this token can never report cancellation.
    pub closed spec fn is_inert(&self) -> bool {
        self.chain is None
    }

    /// A token that never reports cancellation.
    pub fn inert() -> (t: Self)
        ensures
            t.is_inert(),
    {
        CancelToken { chain: None }
    }

    /// A token that reports cancellation whenever a trigger of the given
    /// chain has fired.
    pub fn watching(chain: cancel_this::CancelChain) -> (t: Self)
        ensures
            !t.is_inert(),
    {
        CancelToken { chain: Some(chain) }
    }

    /// Ask whether cancellation has been requested right now. Only an inert
    /// token's answer is pinned; a watching token's depends on its triggers.
    pub fn observe(&self) -> (r: Option<cancel_this::Cancelled>)
        ensures
            self.is_inert() ==> r is None,
    {
        match &self.chain {
            None => None,
            Some(chain) => observe_chain(chain),
        }
    }
}

/// There is only one inert token, so two of them are interchangeable.
pub proof fn lemma_inert_tokens_equal(a: CancelToken, b: CancelToken)
    requires
        a.is_inert(),
        b.is_inert(),
    ensures
        a == b,
{
}

/// Relies on `cancel_this::check_cancellation`: reports `Some(reason)` when a
/// trigger of the chain has fired; whether one has depends on outside state.
#[verifier::external_body]
fn observe_chain(chain: &cancel_this::CancelChain) -> Option<cancel_this::Cancelled> {
    match cancel_this::check_cancellation(chain) {
        Ok(()) => None,
        Err(cancelled) => Some(cancelled),
    }
}

} // verus!
