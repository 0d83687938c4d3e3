use crate::algorithm::{Algorithm, Stateful};
use crate::cancel::CancelToken;
use crate::completable::{Completable, Incomplete};
use crate::computable::Computable;
use vstd::prelude::*;

verus! {

/// Defines a single step of a [`Computation`].
///
/// Implement this trait to define the logic for advancing a computation.
/// Each call to `step` should either:
/// - return `Ok(output)` if the computation is complete,
/// - return `Err(Incomplete::Suspended)` to yield control and resume later, or
/// - return `Err(Incomplete::Cancelled(_))` if the step observed cancellation
///   itself.
///
/// A step is the only place where algorithm-specific logic lives, and it is a
/// pure function of the context and the incoming state:
/// [`ComputationStep::step_rel`] says what it may do, and the executable
/// `step` promises to act within that relation.
pub trait ComputationStep<CONTEXT, STATE, OUTPUT> {
    /// What one step may do: relates the context and the incoming state to
    /// the returned signal and the state left behind.
    spec fn step_rel(context: CONTEXT, pre: STATE, r: Completable<OUTPUT>, post: STATE) -> bool;

    /// Execute one step of the computation.
    fn step(context: &CONTEXT, state: &mut STATE) -> (r: Completable<OUTPUT>)
        ensures
            Self::step_rel(*context, *old(state), r, *final(state)),
    ;
}

/// Whether a step returning this signal finishes the computation: a final
/// value or an observed cancellation does; a suspension does not, and an
/// `Exhausted` signal of the step's own is passed through unchanged.
pub open spec fn step_completes<OUTPUT>(r: Completable<OUTPUT>) -> bool {
    match r {
        Ok(_) => true,
        Err(Incomplete::Cancelled(_)) => true,
        Err(_) => false,
    }
}

/// A stateful computation that can be suspended and resumed.
///
/// `Computation` is the step-driven default implementation of [`Algorithm`]:
/// it delegates the algorithm-specific logic to a [`ComputationStep`] while
/// handling state ownership, completion, and the cancellation check. Every
/// poll first consults the [`CancelToken`]; only if no cancellation is
/// observed does the step run. Once a poll has returned the final value or a
/// cancellation, the instance is completed and every later poll returns
/// `Err(Incomplete::Exhausted)`.
pub struct Computation<CONTEXT, STATE, OUTPUT, STEP: ComputationStep<CONTEXT, STATE, OUTPUT>> {
    /// The immutable context, fixed at construction and read by every step.
    pub context: CONTEXT,
    /// The mutable progress record, owned exclusively by this instance.
    pub state: STATE,
    /// The cooperative-cancellation capability, consulted once per poll.
    pub token: CancelToken,
    /// Whether a poll has already returned the final value or a cancellation.
    pub completed: bool,
    /// Pins the output and step types; carries no value.
    pub step_marker: Ghost<Option<(OUTPUT, STEP)>>,
}

impl<CONTEXT, STATE, OUTPUT, STEP: ComputationStep<CONTEXT, STATE, OUTPUT>> Computation<
    CONTEXT,
    STATE,
    OUTPUT,
    STEP,
> {
    /// The same instance with the given state and completion flag.
    pub open spec fn advanced(self, state: STATE, completed: bool) -> Self {
        Computation {
            context: self.context,
            state: state,
            token: self.token,
            completed: completed,
            step_marker: self.step_marker,
        }
    }

    /// The same computation, but watching the given cancellation token.
    pub fn with_token(self, token: CancelToken) -> (r: Self)
        ensures
            r.context == self.context,
            r.state == self.state,
            r.completed == self.completed,
            r.token == token,
            r.step_marker == self.step_marker,
    {
        Computation {
            context: self.context,
            state: self.state,
            token: token,
            completed: self.completed,
            step_marker: self.step_marker,
        }
    }
}

impl<CONTEXT, STATE, OUTPUT, STEP: ComputationStep<CONTEXT, STATE, OUTPUT>> Computable<
    OUTPUT,
> for Computation<CONTEXT, STATE, OUTPUT, STEP> {
    open spec fn poll_rel(pre: Self, r: Completable<OUTPUT>, post: Self) -> bool {
        if pre.completed {
            r == Err::<OUTPUT, Incomplete>(Incomplete::Exhausted) && post == pre
        } else {
            ||| {
                &&& !pre.token.is_inert()
                &&& r matches Err(Incomplete::Cancelled(_))
                &&& post == pre.advanced(pre.state, true)
            }
            ||| exists|s2: STATE|
                {
                    &&& #[trigger] STEP::step_rel(pre.context, pre.state, r, s2)
                    &&& post == pre.advanced(s2, step_completes(r))
                }
        }
    }

    fn try_compute(&mut self) -> (r: Completable<OUTPUT>) {
        if self.completed {
            return Err(Incomplete::Exhausted);
        }
        match self.token.observe() {
            Some(c) => {
                self.completed = true;
                Err(Incomplete::Cancelled(c))
            },
            None => {
                let ghost pre_state = self.state;
                let r = STEP::step(&self.context, &mut self.state);
                match &r {
                    Ok(_) => {
                        self.completed = true;
                    },
                    Err(Incomplete::Cancelled(_)) => {
                        self.completed = true;
                    },
                    Err(_) => {},
                }
                proof {
                    assert(STEP::step_rel(self.context, pre_state, r, self.state));
                }
                r
            },
        }
    }
}

impl<CONTEXT, STATE, OUTPUT, STEP: ComputationStep<CONTEXT, STATE, OUTPUT>> Stateful<
    CONTEXT,
    STATE,
> for Computation<CONTEXT, STATE, OUTPUT, STEP> {
    open spec fn ctx(&self) -> CONTEXT {
        self.context
    }

    open spec fn st(&self) -> STATE {
        self.state
    }

    open spec fn is_fresh(&self) -> bool {
        &&& !self.completed
        &&& self.token.is_inert()
        &&& self.step_marker@ == None::<(OUTPUT, STEP)>
    }

    fn from_parts(context: CONTEXT, state: STATE) -> (s: Self) {
        Computation {
            context: context,
            state: state,
            token: CancelToken::inert(),
            completed: false,
            step_marker: Ghost(None),
        }
    }

    fn into_parts(self) -> (parts: (CONTEXT, STATE)) {
        (self.context, self.state)
    }

    fn context(&self) -> (c: &CONTEXT) {
        &self.context
    }

    fn state(&self) -> (s: &STATE) {
        &self.state
    }

    fn state_mut(&mut self) -> (s: &mut STATE) {
        &mut self.state
    }
}

impl<CONTEXT, STATE, OUTPUT, STEP: ComputationStep<CONTEXT, STATE, OUTPUT>> Algorithm<
    CONTEXT,
    STATE,
    OUTPUT,
> for Computation<CONTEXT, STATE, OUTPUT, STEP> {

}

/// Two fresh computations built from equal parts are the same value, so
/// everything proved of one holds of the other: rebuilding an active,
/// inert-token computation from its context and state, as a persistence layer
/// does, resumes with exactly the behavior of the original instance.
pub proof fn lemma_fresh_computation_unique<
    CONTEXT,
    STATE,
    OUTPUT,
    STEP: ComputationStep<CONTEXT, STATE, OUTPUT>,
>(a: Computation<CONTEXT, STATE, OUTPUT, STEP>, b: Computation<CONTEXT, STATE, OUTPUT, STEP>)
    requires
        a.is_fresh(),
        b.is_fresh(),
        a.ctx() == b.ctx(),
        a.st() == b.st(),
    ensures
        a == b,
{
    crate::cancel::lemma_inert_tokens_equal(a.token, b.token);
}

} // verus!
