use crate::algorithm::{GenAlgorithm, Stateful};
use crate::cancel::CancelToken;
use crate::completable::{Completable, Incomplete};
use crate::generatable::Generatable;
use vstd::prelude::*;

verus! {

/// Defines a single step of a [`Generator`].
///
/// Implement this trait to define the logic for generating items.
/// Each call to `step` should either:
/// - return `Ok(Some(item))` to yield an item,
/// - return `Ok(None)` when the stream is finished,
/// - return `Err(Incomplete::Suspended)` to yield control without producing
///   an item, or
/// - return `Err(Incomplete::Cancelled(_))` if the step observed cancellation
///   itself.
///
/// A step is a pure function of the context and the incoming state:
/// [`GeneratorStep::step_rel`] says what it may do, and the executable `step`
/// promises to act within that relation.
pub trait GeneratorStep<CONTEXT, STATE, ITEM> {
    /// What one step may do: relates the context and the incoming state to
    /// the returned signal and the state left behind.
    spec fn step_rel(
        context: CONTEXT,
        pre: STATE,
        r: Completable<Option<ITEM>>,
        post: STATE,
    ) -> bool;

    /// Execute one step of the generator.
    fn step(context: &CONTEXT, state: &mut STATE) -> (r: Completable<Option<ITEM>>)
        ensures
            Self::step_rel(*context, *old(state), r, *final(state)),
    ;
}

/// Whether a step returning this signal closes the stream for good: the
/// stream-terminal signal and an observed cancellation do.
pub open spec fn stream_closes<ITEM>(r: Completable<Option<ITEM>>) -> bool {
    match r {
        Ok(None) => true,
        Err(Incomplete::Cancelled(_)) => true,
        _ => false,
    }
}

/// How one poll of a [`Generator`] reports its step's signal: `Ok(None)`
/// becomes the end of the stream, an item stays an item, and an incomplete
/// signal is surfaced as such.
pub open spec fn transposed<ITEM>(r: Completable<Option<ITEM>>) -> Option<Completable<ITEM>> {
    match r {
        Ok(None) => None,
        Ok(Some(item)) => Some(Ok(item)),
        Err(e) => Some(Err(e)),
    }
}

/// A stateful generator that can be suspended and resumed.
///
/// `Generator` is the step-driven default implementation of a suspendable
/// stream: it delegates the generation logic to a [`GeneratorStep`] while
/// handling state ownership, stream termination, and the cancellation check.
/// Every poll of an open stream first consults the [`CancelToken`]; only if
/// no cancellation is observed does the step run. Once the step has returned
/// the stream-terminal signal, or a cancellation was observed or returned,
/// the stream is permanently finished and every later poll returns `None`.
pub struct Generator<CONTEXT, STATE, ITEM, STEP: GeneratorStep<CONTEXT, STATE, ITEM>> {
    /// The immutable context, fixed at construction and read by every step.
    pub context: CONTEXT,
    /// The mutable progress record, owned exclusively by this instance.
    pub state: STATE,
    /// The cooperative-cancellation capability, consulted once per poll.
    pub token: CancelToken,
    /// Whether the stream is permanently finished.
    pub finished: bool,
    /// Pins the item and step types; carries no value.
    pub step_marker: Ghost<Option<(ITEM, STEP)>>,
}

impl<CONTEXT, STATE, ITEM, STEP: GeneratorStep<CONTEXT, STATE, ITEM>> Generator<
    CONTEXT,
    STATE,
    ITEM,
    STEP,
> {
    /// The same instance with the given state and stream-termination flag.
    pub open spec fn advanced(self, state: STATE, finished: bool) -> Self {
        Generator {
            context: self.context,
            state: state,
            token: self.token,
            finished: finished,
            step_marker: self.step_marker,
        }
    }

    /// The same generator, but watching the given cancellation token.
    pub fn with_token(self, token: CancelToken) -> (r: Self)
        ensures
            r.context == self.context,
            r.state == self.state,
            r.finished == self.finished,
            r.token == token,
            r.step_marker == self.step_marker,
    {
        Generator {
            context: self.context,
            state: self.state,
            token: token,
            finished: self.finished,
            step_marker: self.step_marker,
        }
    }
}

impl<CONTEXT, STATE, ITEM, STEP: GeneratorStep<CONTEXT, STATE, ITEM>> Generatable<
    ITEM,
> for Generator<CONTEXT, STATE, ITEM, STEP> {
    open spec fn next_rel(pre: Self, r: Option<Completable<ITEM>>, post: Self) -> bool {
        if pre.finished {
            r is None && post == pre
        } else {
            ||| {
                &&& !pre.token.is_inert()
                &&& r matches Some(Err(Incomplete::Cancelled(_)))
                &&& post == pre.advanced(pre.state, true)
            }
            ||| exists|sr: Completable<Option<ITEM>>, s2: STATE|
                {
                    &&& #[trigger] STEP::step_rel(pre.context, pre.state, sr, s2)
                    &&& r == transposed(sr)
                    &&& post == pre.advanced(s2, stream_closes(sr))
                }
        }
    }

    fn try_next(&mut self) -> (r: Option<Completable<ITEM>>) {
        if self.finished {
            return None;
        }
        match self.token.observe() {
            Some(c) => {
                self.finished = true;
                Some(Err(Incomplete::Cancelled(c)))
            },
            None => {
                let ghost pre_state = self.state;
                let sr = STEP::step(&self.context, &mut self.state);
                let ghost gsr: Completable<Option<ITEM>> = sr;
                proof {
                    assert(STEP::step_rel(self.context, pre_state, gsr, self.state));
                }
                match sr {
                    Ok(None) => {
                        self.finished = true;
                        None
                    },
                    Ok(Some(item)) => Some(Ok(item)),
                    Err(Incomplete::Cancelled(c)) => {
                        self.finished = true;
                        Some(Err(Incomplete::Cancelled(c)))
                    },
                    Err(e) => Some(Err(e)),
                }
            },
        }
    }
}

impl<CONTEXT, STATE, ITEM, STEP: GeneratorStep<CONTEXT, STATE, ITEM>> Stateful<
    CONTEXT,
    STATE,
> for Generator<CONTEXT, STATE, ITEM, STEP> {
    open spec fn ctx(&self) -> CONTEXT {
        self.context
    }

    open spec fn st(&self) -> STATE {
        self.state
    }

    open spec fn is_fresh(&self) -> bool {
        &&& !self.finished
        &&& self.token.is_inert()
        &&& self.step_marker@ == None::<(ITEM, STEP)>
    }

    fn from_parts(context: CONTEXT, state: STATE) -> (s: Self) {
        Generator {
            context: context,
            state: state,
            token: CancelToken::inert(),
            finished: false,
            step_marker: Ghost(None),
        }
    }

    fn into_parts(self) -> (parts: (CONTEXT, STATE)) {
        (self.context, self.state)
    }

    fn context(&self) -> (c: &CONTEXT) {
        &self.context
    }

    fn state(&self) -> (s: &STATE) {
        &self.state
    }

    fn state_mut(&mut self) -> (s: &mut STATE) {
        &mut self.state
    }
}

impl<CONTEXT, STATE, ITEM, STEP: GeneratorStep<CONTEXT, STATE, ITEM>> GenAlgorithm<
    CONTEXT,
    STATE,
    ITEM,
> for Generator<CONTEXT, STATE, ITEM, STEP> {

}

/// Two fresh generators built from equal parts are the same value:
/// rebuilding an open, inert-token generator from its context and state, as
/// a persistence layer does, resumes with exactly the behavior of the
/// original instance.
pub proof fn lemma_fresh_generator_unique<
    CONTEXT,
    STATE,
    ITEM,
    STEP: GeneratorStep<CONTEXT, STATE, ITEM>,
>(a: Generator<CONTEXT, STATE, ITEM, STEP>, b: Generator<CONTEXT, STATE, ITEM, STEP>)
    requires
        a.is_fresh(),
        b.is_fresh(),
        a.ctx() == b.ctx(),
        a.st() == b.st(),
    ensures
        a == b,
{
    crate::cancel::lemma_inert_tokens_equal(a.token, b.token);
}

} // verus!
