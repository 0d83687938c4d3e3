use crate::completable::{Cancellable, Completable, Incomplete};
use crate::computable::chain_end;
use vstd::prelude::*;

verus! {

/// An alternative to [`crate::Computable`] which is intended for generators:
/// a suspendable stream of values.
///
/// One poll of the stream returns:
/// - `None` — the stream is permanently finished; no more items will ever be
///   produced;
/// - `Some(Ok(item))` — one item produced;
/// - `Some(Err(Incomplete::Suspended))` — no item this call; call again;
/// - `Some(Err(Incomplete::Cancelled(_)))` — the stream terminates abnormally
///   due to cancellation.
///
/// Every implementation describes what one poll may do through the relation
/// [`Generatable::next_rel`], and `try_next` promises to act within that
/// relation. The plain-iterator view lives in [`GeneratableExt`].
pub trait Generatable<T>: Sized {
    /// Which outcomes one poll of the stream may produce from a given
    /// pre-state: relates the state before the poll to the returned signal
    /// and the state after.
    spec fn next_rel(pre: Self, r: Option<Completable<T>>, post: Self) -> bool;

    /// Try to advance the generator and return the next item.
    fn try_next(&mut self) -> (r: Option<Completable<T>>)
        ensures
            Self::next_rel(*old(self), r, *final(self)),
    ;
}

/// Whether `states` lists, in order, the states a stream starting at `start`
/// may pass through while every poll returns
/// `Some(Err(Incomplete::Suspended))`.
pub open spec fn stream_suspend_chain<T, G: Generatable<T>>(start: G, states: Seq<G>) -> bool
    decreases states.len(),
{
    states.len() == 0 || {
        &&& stream_suspend_chain(start, states.drop_last())
        &&& G::next_rel(
            chain_end(start, states.drop_last()),
            Some(Err(Incomplete::Suspended)),
            states.last(),
        )
    }
}

/// Whether every run of suspended stream polls from `start` has at most
/// `bound` polls: the guarantee a caller gives before pulling through the
/// plain-iterator view.
pub open spec fn stream_suspends_bounded<T, G: Generatable<T>>(start: G, bound: nat) -> bool {
    forall|states: Seq<G>|
        #[trigger] stream_suspend_chain(start, states) ==> states.len() <= bound
}

/// How the plain-iterator view reports a settled stream poll: an item as an
/// item, a cancellation as a terminal error item, and a terminal or
/// exhausted stream as the end of iteration.
pub open spec fn settled_item<T>(go: Option<Completable<T>>) -> Option<Cancellable<T>> {
    match go {
        None => None,
        Some(Ok(item)) => Some(Ok(item)),
        Some(Err(Incomplete::Cancelled(c))) => Some(Err(c)),
        Some(Err(_)) => None,
    }
}

/// Whether one pull through the plain-iterator view, starting at `start` and
/// ending at `post`, may report `r`: after a run of suspended polls, a poll
/// settled with some non-suspended outcome that `r` reports.
pub open spec fn pull_outcome<T, G: Generatable<T>>(
    start: G,
    post: G,
    r: Option<Cancellable<T>>,
) -> bool {
    exists|states: Seq<G>, go: Option<Completable<T>>|
        {
            &&& stream_suspend_chain(start, states)
            &&& #[trigger] G::next_rel(chain_end(start, states), go, post)
            &&& go != Some(Err::<T, Incomplete>(Incomplete::Suspended))
            &&& r == settled_item(go)
        }
}

/// The plain-iterator view shared by every [`Generatable`] type.
pub trait GeneratableExt<T>: Generatable<T> {
    /// Pull the next item, skipping suspended polls internally, for callers
    /// that only want the eventual items: an exhausted or finished stream
    /// ends the iteration, and a cancellation surfaces as a terminal error
    /// item. The caller must guarantee that the run of suspended polls is
    /// bounded.
    fn next(&mut self) -> (r: Option<Cancellable<T>>)
        requires
            exists|bound: nat| stream_suspends_bounded::<T, Self>(*old(self), bound),
        ensures
            pull_outcome::<T, Self>(*old(self), *final(self), r),
    ;
}

impl<T, G: Generatable<T>> GeneratableExt<T> for G {
    fn next(&mut self) -> (r: Option<Cancellable<T>>) {
        let ghost start: Self = *self;
        let ghost bound: nat = choose|b: nat| stream_suspends_bounded::<T, Self>(start, b);
        let ghost mut states: Seq<Self> = Seq::empty();
        loop
            invariant
                start == *old(self),
                stream_suspends_bounded::<T, Self>(start, bound),
                stream_suspend_chain::<T, Self>(start, states),
                *self == chain_end::<Self>(start, states),
                states.len() <= bound,
            decreases bound - states.len(),
        {
            let ghost prev: Self = *self;
            let go = self.try_next();
            let ghost ggo: Option<Completable<T>> = go;
            match go {
                Some(Err(Incomplete::Suspended)) => {
                    proof {
                        let extended = states.push(*self);
                        assert(extended.drop_last() =~= states);
                        assert(stream_suspend_chain::<T, Self>(start, extended));
                        states = extended;
                    }
                },
                None => {
                    proof {
                        assert(pull_outcome::<T, Self>(start, *self, settled_item(ggo)));
                    }
                    return None;
                },
                Some(Ok(item)) => {
                    proof {
                        assert(pull_outcome::<T, Self>(start, *self, settled_item(ggo)));
                    }
                    return Some(Ok(item));
                },
                Some(Err(Incomplete::Cancelled(c))) => {
                    proof {
                        assert(pull_outcome::<T, Self>(start, *self, settled_item(ggo)));
                    }
                    return Some(Err(c));
                },
                Some(Err(Incomplete::Exhausted)) => {
                    proof {
                        assert(pull_outcome::<T, Self>(start, *self, settled_item(ggo)));
                    }
                    return None;
                },
            }
        }
    }
}

} // verus!
