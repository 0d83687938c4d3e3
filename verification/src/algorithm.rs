use crate::collector::{Accumulator, Collector};
use crate::completable::{Cancellable, Completable, Incomplete};
use crate::generatable::Generatable;
use crate::computable::{chain_end, never_exhausts, suspend_chain, suspends_bounded, Computable,
    ComputableExt};
use vstd::prelude::*;
use vstd::std_specs::convert::IntoSpec;

verus! {

/// A shared interface of objects that own an immutable `CONTEXT` and a
/// mutable `STATE`.
///
/// The context is fixed at construction and read by every step; the state is
/// the mutable progress record, owned exclusively by the instance.
pub trait Stateful<CONTEXT, STATE>: Sized {
    /// The immutable context the instance was built with.
    spec fn ctx(&self) -> CONTEXT;

    /// The current mutable state of the instance.
    spec fn st(&self) -> STATE;

    /// Whether the instance carries nothing beyond its context/state pair,
    /// as [`Stateful::from_parts`] leaves it: still open, with an inert
    /// cancellation token. An instance rebuilt from the parts of such an
    /// instance is the same value, so it resumes with the same behavior.
    spec fn is_fresh(&self) -> bool;

    /// Create a new [`Stateful`] instance using values that can be converted
    /// to `CONTEXT` and `STATE`.
    fn configure<I1: Into<CONTEXT>, I2: Into<STATE>>(context: I1, initial_state: I2) -> (s: Self)
        ensures
            I1::obeys_into_spec() ==> s.ctx() == context.into_spec(),
            I2::obeys_into_spec() ==> s.st() == initial_state.into_spec(),
            s.is_fresh(),
    {
        Self::from_parts(context.into(), initial_state.into())
    }

    /// Create a new [`Stateful`] instance from `CONTEXT` and `STATE`.
    fn from_parts(context: CONTEXT, state: STATE) -> (s: Self)
        ensures
            s.ctx() == context,
            s.st() == state,
            s.is_fresh(),
    ;

    /// Destruct the [`Stateful`] instance into `CONTEXT` and `STATE` values.
    fn into_parts(self) -> (parts: (CONTEXT, STATE))
        ensures
            parts.0 == self.ctx(),
            parts.1 == self.st(),
    ;

    /// Access to the underlying immutable `CONTEXT`.
    fn context(&self) -> (c: &CONTEXT)
        ensures
            *c == self.ctx(),
    ;

    /// Access to the underlying `STATE`.
    fn state(&self) -> (s: &STATE)
        ensures
            *s == self.st(),
    ;

    /// Access to the underlying `STATE` as a mutable reference.
    ///
    /// Keep in mind that a consistent state is important for the correctness
    /// of a computation: this escape hatch is for privileged orchestration
    /// code (a checkpoint or rewind facility), never for the algorithm's own
    /// step logic.
    fn state_mut(&mut self) -> (s: &mut STATE)
        ensures
            *s == old(self).st(),
            final(self).st() == *final(s),
            final(self).ctx() == old(self).ctx(),
            final(self).is_fresh() == old(self).is_fresh(),
    ;
}

/// Whether polling a fresh instance built from `context` and
/// `initial_state` can, after a run of suspended polls, settle with the
/// completion signal `cr`: what a one-shot run of the computation may
/// observe.
pub open spec fn drive_outcome<
    CONTEXT,
    STATE,
    OUTPUT,
    C: Computable<OUTPUT> + Stateful<CONTEXT, STATE>,
>(context: CONTEXT, initial_state: STATE, cr: Completable<OUTPUT>) -> bool {
    exists|s0: C, states: Seq<C>, s1: C|
        {
            &&& s0.is_fresh() && s0.ctx() == context && s0.st() == initial_state
            &&& suspend_chain(s0, states)
            &&& #[trigger] C::poll_rel(chain_end(s0, states), cr, s1)
        }
}

/// Extends the [`Computable`] contract with an owned context/state pair.
pub trait Algorithm<CONTEXT, STATE, OUTPUT>: Computable<OUTPUT> + Stateful<CONTEXT, STATE> {
    /// Configure and immediately execute the computation, skipping over all
    /// suspended states.
    ///
    /// The caller promises, for the freshly built instance, what
    /// [`ComputableExt::compute`] asks: a bounded run of suspended polls, and
    /// no reachable `Incomplete::Exhausted`.
    fn run(context: CONTEXT, initial_state: STATE) -> (r: Cancellable<OUTPUT>)
        requires
            forall|s: Self| #![trigger s.ctx(), s.st()]
                s.is_fresh() && s.ctx() == context && s.st() == initial_state ==> (exists|
                    bound: nat,
                |
                    suspends_bounded::<OUTPUT, Self>(s, bound)) && never_exhausts::<
                    OUTPUT,
                    Self,
                >(s),
        ensures
            r is Ok ==> drive_outcome::<CONTEXT, STATE, OUTPUT, Self>(
                context,
                initial_state,
                Ok(r->Ok_0),
            ),
            r is Err ==> drive_outcome::<CONTEXT, STATE, OUTPUT, Self>(
                context,
                initial_state,
                Err(Incomplete::Cancelled(r->Err_0)),
            ),
    {
        let mut s = Self::from_parts(context, initial_state);
        let ghost s0: Self = s;
        let r = s.compute();
        proof {
            let cr = if r is Ok {
                Ok::<OUTPUT, Incomplete>(r->Ok_0)
            } else {
                Err::<OUTPUT, Incomplete>(Incomplete::Cancelled(r->Err_0))
            };
            let states = choose|states: Seq<Self>|
                #[trigger] suspend_chain::<OUTPUT, Self>(s0, states) && Self::poll_rel(
                    chain_end(s0, states),
                    cr,
                    s,
                );
            assert(suspend_chain::<OUTPUT, Self>(s0, states));
            assert(Self::poll_rel(chain_end(s0, states), cr, s));
            assert(drive_outcome::<CONTEXT, STATE, OUTPUT, Self>(context, initial_state, cr));
        }
        r
    }
}

/// Extends the [`Generatable`] contract with an owned context/state pair.
pub trait GenAlgorithm<CONTEXT, STATE, OUTPUT>: Generatable<OUTPUT> + Stateful<CONTEXT, STATE> {
    /// Convert this generator into a [`Computable`] that collects all its
    /// items into a `COLLECTION`, for callers who want "all items,
    /// suspendably" rather than per-item access.
    fn computation<COLLECTION: Accumulator<OUTPUT>>(self) -> (c: Collector<
        OUTPUT,
        COLLECTION,
        Self,
    >)
        ensures
            c.generator == self,
            c.collector matches Some(acc) && acc.models(Seq::<OUTPUT>::empty()),
    {
        Collector::new(self)
    }
}

} // verus!
