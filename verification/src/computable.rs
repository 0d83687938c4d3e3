use crate::completable::{Cancellable, Completable, Incomplete};
use vstd::prelude::*;

verus! {

/// A generic trait implemented by types that represent a poll-to-completion
/// computation.
///
/// To advance the computation, repeatedly call [`Computable::try_compute`]
/// until a value is returned. Every implementation describes what one poll
/// may do through the relation [`Computable::poll_rel`], and `try_compute`
/// promises to act within that relation. The driving loops live in
/// [`ComputableExt`], which every `Computable` type has.
pub trait Computable<T>: Sized {
    /// Which outcomes one poll may produce from a given pre-state: relates
    /// the state before the poll to the returned signal and the state after.
    spec fn poll_rel(pre: Self, r: Completable<T>, post: Self) -> bool;

    /// Try to advance this computation, returning a value once the
    /// computation is done.
    fn try_compute(&mut self) -> (r: Completable<T>)
        ensures
            Self::poll_rel(*old(self), r, *final(self)),
    ;
}

/// The state a computation is left in after a run of suspended polls: the
/// start if the run is empty, else the state after the run's last poll.
pub open spec fn chain_end<C>(start: C, states: Seq<C>) -> C {
    if states.len() == 0 {
        start
    } else {
        states.last()
    }
}

/// Whether `states` lists, in order, the states a computation starting at
/// `start` may pass through while every poll returns
/// `Err(Incomplete::Suspended)`.
pub open spec fn suspend_chain<T, C: Computable<T>>(start: C, states: Seq<C>) -> bool
    decreases states.len(),
{
    states.len() == 0 || {
        &&& suspend_chain(start, states.drop_last())
        &&& C::poll_rel(
            chain_end(start, states.drop_last()),
            Err(Incomplete::Suspended),
            states.last(),
        )
    }
}

/// Whether every run of suspended polls from `start` has at most `bound`
/// polls: the guarantee a caller gives before driving to completion.
pub open spec fn suspends_bounded<T, C: Computable<T>>(start: C, bound: nat) -> bool {
    forall|states: Seq<C>| #[trigger] suspend_chain(start, states) ==> states.len() <= bound
}

/// Whether no poll reachable from `start` through suspended polls can return
/// `Err(Incomplete::Exhausted)`.
pub open spec fn never_exhausts<T, C: Computable<T>>(start: C) -> bool {
    forall|states: Seq<C>, r: Completable<T>, post: C|
        suspend_chain(start, states) && #[trigger] C::poll_rel(chain_end(start, states), r, post)
            ==> r != Err::<T, Incomplete>(Incomplete::Exhausted)
}

/// The driving loops shared by every [`Computable`] type.
pub trait ComputableExt<T>: Computable<T> {
    /// Advance this computation until it either completes, is cancelled, or
    /// becomes exhausted, skipping over all suspended states.
    ///
    /// Identical to repeatedly calling [`Computable::try_compute`] until it
    /// returns something other than `Err(Incomplete::Suspended)`. The caller
    /// must guarantee that the run of suspended polls is bounded; a
    /// computation that suspends forever cannot be driven to finality.
    fn compute_completable(&mut self) -> (r: Completable<T>)
        requires
            exists|bound: nat| suspends_bounded::<T, Self>(*old(self), bound),
        ensures
            r != Err::<T, Incomplete>(Incomplete::Suspended),
            exists|states: Seq<Self>|
                #[trigger] suspend_chain(*old(self), states) && Self::poll_rel(
                    chain_end(*old(self), states),
                    r,
                    *final(self),
                ),
    ;

    /// Advance this computation until completion, skipping over all suspended
    /// states, and surface a cancellation as the error of the result.
    ///
    /// The caller must additionally guarantee that driving cannot observe
    /// `Incomplete::Exhausted`: polling past completion is a programming
    /// error, not a runtime condition to recover from.
    fn compute(&mut self) -> (r: Cancellable<T>)
        requires
            exists|bound: nat| suspends_bounded::<T, Self>(*old(self), bound),
            never_exhausts::<T, Self>(*old(self)),
        ensures
            exists|states: Seq<Self>|
                #[trigger] suspend_chain(*old(self), states) && Self::poll_rel(
                    chain_end(*old(self), states),
                    match r {
                        Ok(v) => Ok(v),
                        Err(c) => Err(Incomplete::Cancelled(c)),
                    },
                    *final(self),
                ),
    ;
}

impl<T, C: Computable<T>> ComputableExt<T> for C {
    fn compute_completable(&mut self) -> (r: Completable<T>) {
        let ghost start: Self = *self;
        let ghost bound: nat = choose|b: nat| suspends_bounded::<T, Self>(start, b);
        let ghost mut states: Seq<Self> = Seq::empty();
        loop
            invariant
                start == *old(self),
                suspends_bounded::<T, Self>(start, bound),
                suspend_chain::<T, Self>(start, states),
                *self == chain_end::<Self>(start, states),
                states.len() <= bound,
            decreases bound - states.len(),
        {
            let ghost prev: Self = *self;
            let r = self.try_compute();
            match r {
                Err(Incomplete::Suspended) => {
                    proof {
                        let extended = states.push(*self);
                        assert(extended.drop_last() =~= states);
                        assert(suspend_chain::<T, Self>(start, extended));
                        states = extended;
                    }
                },
                _ => {
                    proof {
                        assert(suspend_chain::<T, Self>(start, states) && Self::poll_rel(
                            chain_end::<Self>(start, states),
                            r,
                            *self,
                        ));
                    }
                    return r;
                },
            }
        }
    }

    fn compute(&mut self) -> (r: Cancellable<T>) {
        let ghost start: Self = *self;
        let r = self.compute_completable();
        match r {
            Ok(value) => Ok(value),
            Err(Incomplete::Cancelled(c)) => Err(c),
            Err(Incomplete::Suspended) => vstd::pervasive::unreached(),
            Err(Incomplete::Exhausted) => {
                proof {
                    let states = choose|states: Seq<Self>|
                        #[trigger] suspend_chain::<T, Self>(start, states) && Self::poll_rel(
                            chain_end(start, states),
                            r,
                            *self,
                        );
                    assert(false);
                }
                vstd::pervasive::unreached()
            },
        }
    }
}

/// A result-like object that stores the result of a [`Computable`] for later
/// use, memoizing it: the first successful poll caches the value, and every
/// later poll returns a reference to the cached value directly, without
/// re-invoking the wrapped computation.
pub struct ComputableResult<T, C: Computable<T>> {
    /// The wrapped computation.
    pub computable: C,
    /// The cached result, once a poll has succeeded.
    pub result: Option<T>,
}

impl<T, C: Computable<T>> From<C> for ComputableResult<T, C> {
    fn from(value: C) -> (r: Self)
        ensures
            r.computable == value,
            r.result is None,
    {
        ComputableResult { computable: value, result: None }
    }
}

impl<T, C: Computable<T>> vstd::std_specs::convert::FromSpecImpl<C> for ComputableResult<T, C> {
    open spec fn obeys_from_spec() -> bool {
        true
    }

    open spec fn from_spec(v: C) -> Self {
        ComputableResult { computable: v, result: None }
    }
}

impl<T, C: Computable<T>> ComputableResult<T, C> {
    /// Create a new [`ComputableResult`] from an instance of [`Computable`].
    pub fn new(computable: C) -> (r: Self)
        ensures
            r.computable == computable,
            r.result is None,
    {
        Self::from(computable)
    }

    /// Advance the inner [`Computable`] and return its result, or return a
    /// reference to the already-computed result.
    ///
    /// Once a poll has succeeded, the wrapped computation is never polled
    /// again: this call leaves the whole wrapper unchanged and returns a
    /// reference to the cached value.
    pub fn try_compute(&mut self) -> (r: Completable<&T>)
        ensures
            (match old(self).result {
                Some(v) => *final(self) == *old(self) && (r matches Ok(rv) && *rv == v),
                None => exists|cr: Completable<T>|
                    {
                        &&& #[trigger] C::poll_rel(
                            old(self).computable,
                            cr,
                            final(self).computable,
                        )
                        &&& match cr {
                            Ok(v) => final(self).result == Some(v) && (r matches Ok(rv) && *rv
                                == v),
                            Err(e) => r == Err::<&T, Incomplete>(e) && final(self).result is None,
                        }
                    },
            }),
    {
        let ghost pre: Self = *self;
        if self.result.is_none() {
            match self.computable.try_compute() {
                Ok(v) => {
                    self.result = Some(v);
                    proof {
                        assert(C::poll_rel(pre.computable, Ok(v), self.computable));
                    }
                },
                Err(e) => {
                    proof {
                        assert(C::poll_rel(
                            pre.computable,
                            Err::<T, Incomplete>(e),
                            self.computable,
                        ));
                    }
                    return Err(e);
                },
            }
        }
        match self.result.as_ref() {
            Some(result) => Ok(result),
            None => vstd::pervasive::unreached(),
        }
    }

    /// A reference to the computed result, assuming it is already available.
    pub fn result_ref(&self) -> (r: Option<&T>)
        ensures
            (match r {
                Some(v) => self.result == Some(*v),
                None => self.result is None,
            }),
    {
        self.result.as_ref()
    }

    /// The computed result, assuming it is already available.
    pub fn result(self) -> (r: Option<T>)
        ensures
            r == self.result,
    {
        self.result
    }

    /// A reference to the underlying computation.
    pub fn computable_ref(&self) -> (r: &C)
        ensures
            *r == self.computable,
    {
        &self.computable
    }

    /// The underlying computation.
    pub fn computable(self) -> (r: C)
        ensures
            r == self.computable,
    {
        self.computable
    }
}

} // verus!
