use crate::completable::{Completable, Incomplete};
use crate::computable::Computable;
use vstd::prelude::*;

verus! {

/// A trivial [`Computable`] that immediately returns a pre-existing value.
///
/// The first poll returns the value as the final result; every later poll
/// returns `Err(Incomplete::Exhausted)`.
pub struct ComputableIdentity<T> {
    /// The value still waiting to be handed out, if any.
    pub value: Option<T>,
}

impl<T> From<T> for ComputableIdentity<T> {
    fn from(value: T) -> (r: Self)
        ensures
            r.value == Some(value),
    {
        ComputableIdentity { value: Some(value) }
    }
}

impl<T> vstd::std_specs::convert::FromSpecImpl<T> for ComputableIdentity<T> {
    open spec fn obeys_from_spec() -> bool {
        true
    }

    open spec fn from_spec(v: T) -> Self {
        ComputableIdentity { value: Some(v) }
    }
}

impl<T> Computable<T> for ComputableIdentity<T> {
    open spec fn poll_rel(pre: Self, r: Completable<T>, post: Self) -> bool {
        match pre.value {
            Some(v) => r == Ok::<T, Incomplete>(v) && post.value is None,
            None => r == Err::<T, Incomplete>(Incomplete::Exhausted) && post == pre,
        }
    }

    fn try_compute(&mut self) -> (r: Completable<T>) {
        match self.value.take() {
            Some(result) => Ok(result),
            None => Err(Incomplete::Exhausted),
        }
    }
}

} // verus!
