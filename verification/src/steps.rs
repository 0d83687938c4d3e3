//! Ready-made step functions and small example computations: counting and
//! summing steps, bounded ranges, and streams with fixed scripts. They show
//! how algorithm-specific logic is written against the step contracts, and
//! they exercise every signal the driving types can surface.

use crate::completable::{Completable, Incomplete};
use crate::computable::Computable;
use crate::computation::ComputationStep;
use crate::generatable::Generatable;
use crate::generator::GeneratorStep;
use vstd::prelude::*;

verus! {

/// What std renders an integer as, in decimal.
pub uninterp spec fn decimal_digits(n: int) -> Seq<char>;

/// The text a finished [`TestComputationStep`] returns.
pub open spec fn done_text(context: i32) -> Seq<char> {
    "done-"@ + decimal_digits(context as int)
}

/// The text a finished [`SimpleStep`] returns.
pub open spec fn context_state_text(context: i32, state: u32) -> Seq<char> {
    "context="@ + decimal_digits(context as int) + ", state="@ + decimal_digits(state as int)
}

/// The text a [`TestGeneratorStep`] item carries.
pub open spec fn pair_text(context: i32, state: u32) -> Seq<char> {
    decimal_digits(context as int) + "-"@ + decimal_digits(state as int)
}

/// The text a [`SimpleGeneratorStep`] item carries.
pub open spec fn item_text(context: i32, state: u32) -> Seq<char> {
    "item-"@ + decimal_digits(context as int) + "-"@ + decimal_digits(state as int)
}

/// Relies on std's `Display` for integers: renders the context in decimal
/// after the fixed prefix.
#[verifier::external_body]
fn fmt_done(context: i32) -> (r: String)
    ensures
        r@ == "done-"@ + decimal_digits(context as int),
{
    format!("done-{}", context)
}

/// Relies on std's `Display` for integers: renders both values in decimal
/// around the fixed text.
#[verifier::external_body]
fn fmt_context_state(context: i32, state: u32) -> (r: String)
    ensures
        r@ == "context="@ + decimal_digits(context as int) + ", state="@ + decimal_digits(
            state as int,
        ),
{
    format!("context={}, state={}", context, state)
}

/// Relies on std's `Display` for integers: renders both values in decimal
/// around the separator.
#[verifier::external_body]
fn fmt_pair(context: i32, state: u32) -> (r: String)
    ensures
        r@ == decimal_digits(context as int) + "-"@ + decimal_digits(state as int),
{
    format!("{}-{}", context, state)
}

/// Relies on std's `Display` for integers: renders both values in decimal
/// after the fixed prefix.
#[verifier::external_body]
fn fmt_item(context: i32, state: u32) -> (r: String)
    ensures
        r@ == "item-"@ + decimal_digits(context as int) + "-"@ + decimal_digits(state as int),
{
    format!("item-{}-{}", context, state)
}

/// The state left by one counting step: the state advances by one until the
/// counter's ceiling.
pub open spec fn bumped_u32(pre: u32) -> u32 {
    if pre < u32::MAX {
        (pre + 1) as u32
    } else {
        pre
    }
}

/// The sum of a sequence of `i32` values with wrapping arithmetic, folded
/// from the left.
pub open spec fn wrap_sum(s: Seq<i32>) -> i32
    decreases s.len(),
{
    if s.len() == 0 {
        0
    } else {
        wrap_sum(s.drop_last()).wrapping_add(s.last())
    }
}

/// A step that walks a list of numbers one suspension at a time: the state
/// is an index that advances by one per poll while it is inside the list,
/// and once it has passed the end, the step returns the list's wrapping sum.
pub struct SumComputationStep;

impl ComputationStep<Vec<i32>, i32, i32> for SumComputationStep {
    open spec fn step_rel(context: Vec<i32>, pre: i32, r: Completable<i32>, post: i32) -> bool {
        if 0 <= pre < i32::MAX && (pre as int) < context@.len() {
            r == Err::<i32, Incomplete>(Incomplete::Suspended) && post == pre + 1
        } else {
            r == Ok::<i32, Incomplete>(wrap_sum(context@)) && post == pre
        }
    }

    fn step(context: &Vec<i32>, state: &mut i32) -> (r: Completable<i32>) {
        if 0 <= *state && *state < i32::MAX && (*state as usize) < context.len() {
            *state = *state + 1;
            Err(Incomplete::Suspended)
        } else {
            let mut total: i32 = 0;
            let mut i: usize = 0;
            while i < context.len()
                invariant
                    i <= context@.len(),
                    total == wrap_sum(context@.take(i as int)),
                decreases context@.len() - i,
            {
                proof {
                    let taken = context@.take(i as int + 1);
                    assert(taken.drop_last() =~= context@.take(i as int));
                    assert(taken.last() == context@[i as int]);
                }
                total = total.wrapping_add(context[i]);
                i = i + 1;
            }
            proof {
                assert(context@.take(context@.len() as int) =~= context@);
            }
            Ok(total)
        }
    }
}

/// A step that counts up to a target, suspending on every poll before the
/// target is reached and then returning the count.
pub struct LongRunningStep;

impl ComputationStep<u32, u32, u32> for LongRunningStep {
    open spec fn step_rel(context: u32, pre: u32, r: Completable<u32>, post: u32) -> bool {
        post == bumped_u32(pre) && if bumped_u32(pre) >= context {
            r == Ok::<u32, Incomplete>(bumped_u32(pre))
        } else {
            r == Err::<u32, Incomplete>(Incomplete::Suspended)
        }
    }

    fn step(context: &u32, state: &mut u32) -> (r: Completable<u32>) {
        if *state < u32::MAX {
            *state = *state + 1;
        }
        if *state >= *context {
            Ok(*state)
        } else {
            Err(Incomplete::Suspended)
        }
    }
}

/// A step that suspends once and then reports completion as text naming its
/// context.
pub struct TestComputationStep;

impl ComputationStep<i32, u32, String> for TestComputationStep {
    open spec fn step_rel(context: i32, pre: u32, r: Completable<String>, post: u32) -> bool {
        post == bumped_u32(pre) && if bumped_u32(pre) < 2 {
            r == Err::<String, Incomplete>(Incomplete::Suspended)
        } else {
            r matches Ok(s) && s@ == done_text(context)
        }
    }

    fn step(context: &i32, state: &mut u32) -> (r: Completable<String>) {
        if *state < u32::MAX {
            *state = *state + 1;
        }
        if *state < 2 {
            Err(Incomplete::Suspended)
        } else {
            Ok(fmt_done(*context))
        }
    }
}

/// A step that suspends twice and then reports completion as text naming its
/// context and final state.
pub struct SimpleStep;

impl ComputationStep<i32, u32, String> for SimpleStep {
    open spec fn step_rel(context: i32, pre: u32, r: Completable<String>, post: u32) -> bool {
        post == bumped_u32(pre) && if bumped_u32(pre) < 3 {
            r == Err::<String, Incomplete>(Incomplete::Suspended)
        } else {
            r matches Ok(s) && s@ == context_state_text(context, bumped_u32(pre))
        }
    }

    fn step(context: &i32, state: &mut u32) -> (r: Completable<String>) {
        if *state < u32::MAX {
            *state = *state + 1;
        }
        if *state < 3 {
            Err(Incomplete::Suspended)
        } else {
            Ok(fmt_context_state(*context, *state))
        }
    }
}

/// A step that completes immediately, without ever suspending.
pub struct ImmediateStep;

impl ComputationStep<(), (), i32> for ImmediateStep {
    open spec fn step_rel(context: (), pre: (), r: Completable<i32>, post: ()) -> bool {
        r == Ok::<i32, Incomplete>(42)
    }

    fn step(context: &(), state: &mut ()) -> (r: Completable<i32>) {
        Ok(42)
    }
}

/// A step that suspends on every poll and never completes.
pub struct NeverCompleteStep;

impl ComputationStep<(), (), i32> for NeverCompleteStep {
    open spec fn step_rel(context: (), pre: (), r: Completable<i32>, post: ()) -> bool {
        r == Err::<i32, Incomplete>(Incomplete::Suspended)
    }

    fn step(context: &(), state: &mut ()) -> (r: Completable<i32>) {
        Err(Incomplete::Suspended)
    }
}

/// A generator step that yields the numbers from one up to its context, one
/// per poll, and then ends the stream.
pub struct RangeGeneratorStep;

impl GeneratorStep<i32, i32, i32> for RangeGeneratorStep {
    open spec fn step_rel(
        context: i32,
        pre: i32,
        r: Completable<Option<i32>>,
        post: i32,
    ) -> bool {
        if pre < context {
            r == Ok::<Option<i32>, Incomplete>(Some((pre + 1) as i32)) && post == pre + 1
        } else {
            r == Ok::<Option<i32>, Incomplete>(None) && post == pre
        }
    }

    fn step(context: &i32, state: &mut i32) -> (r: Completable<Option<i32>>) {
        if *state < *context {
            *state = *state + 1;
            Ok(Some(*state))
        } else {
            Ok(None)
        }
    }
}

/// A generator step over unsigned counters, for streams that are driven
/// under a cancellation token: yields the numbers from one up to its context.
pub struct CancellableGeneratorStep;

impl GeneratorStep<u32, u32, u32> for CancellableGeneratorStep {
    open spec fn step_rel(
        context: u32,
        pre: u32,
        r: Completable<Option<u32>>,
        post: u32,
    ) -> bool {
        if pre < context {
            r == Ok::<Option<u32>, Incomplete>(Some((pre + 1) as u32)) && post == pre + 1
        } else {
            r == Ok::<Option<u32>, Incomplete>(None) && post == pre
        }
    }

    fn step(context: &u32, state: &mut u32) -> (r: Completable<Option<u32>>) {
        if *state < *context {
            *state = *state + 1;
            Ok(Some(*state))
        } else {
            Ok(None)
        }
    }
}

/// A generator step that yields two items of text naming its context and
/// state, and then ends the stream.
pub struct TestGeneratorStep;

impl GeneratorStep<i32, u32, String> for TestGeneratorStep {
    open spec fn step_rel(
        context: i32,
        pre: u32,
        r: Completable<Option<String>>,
        post: u32,
    ) -> bool {
        post == bumped_u32(pre) && if bumped_u32(pre) <= 2 {
            r matches Ok(Some(s)) && s@ == pair_text(context, bumped_u32(pre))
        } else {
            r == Ok::<Option<String>, Incomplete>(None)
        }
    }

    fn step(context: &i32, state: &mut u32) -> (r: Completable<Option<String>>) {
        if *state < u32::MAX {
            *state = *state + 1;
        }
        if *state <= 2 {
            Ok(Some(fmt_pair(*context, *state)))
        } else {
            Ok(None)
        }
    }
}

/// A generator step that yields three items of text naming its context and
/// state, and then ends the stream.
pub struct SimpleGeneratorStep;

impl GeneratorStep<i32, u32, String> for SimpleGeneratorStep {
    open spec fn step_rel(
        context: i32,
        pre: u32,
        r: Completable<Option<String>>,
        post: u32,
    ) -> bool {
        post == bumped_u32(pre) && if bumped_u32(pre) <= 3 {
            r matches Ok(Some(s)) && s@ == item_text(context, bumped_u32(pre))
        } else {
            r == Ok::<Option<String>, Incomplete>(None)
        }
    }

    fn step(context: &i32, state: &mut u32) -> (r: Completable<Option<String>>) {
        if *state < u32::MAX {
            *state = *state + 1;
        }
        if *state <= 3 {
            Ok(Some(fmt_item(*context, *state)))
        } else {
            Ok(None)
        }
    }
}

/// A generator step that suspends twice, yields two items, and then ends the
/// stream.
pub struct SuspendingGeneratorStep;

impl GeneratorStep<(), u32, i32> for SuspendingGeneratorStep {
    open spec fn step_rel(context: (), pre: u32, r: Completable<Option<i32>>, post: u32) -> bool {
        post == bumped_u32(pre) && if bumped_u32(pre) <= 2 {
            r == Err::<Option<i32>, Incomplete>(Incomplete::Suspended)
        } else if bumped_u32(pre) <= 4 {
            r == Ok::<Option<i32>, Incomplete>(Some(bumped_u32(pre) as i32))
        } else {
            r == Ok::<Option<i32>, Incomplete>(None)
        }
    }

    fn step(context: &(), state: &mut u32) -> (r: Completable<Option<i32>>) {
        if *state < u32::MAX {
            *state = *state + 1;
        }
        if *state <= 2 {
            Err(Incomplete::Suspended)
        } else if *state <= 4 {
            Ok(Some(*state as i32))
        } else {
            Ok(None)
        }
    }
}

/// A generator step whose stream ends on the very first poll.
pub struct EmptyGeneratorStep;

impl GeneratorStep<(), (), i32> for EmptyGeneratorStep {
    open spec fn step_rel(context: (), pre: (), r: Completable<Option<i32>>, post: ()) -> bool {
        r == Ok::<Option<i32>, Incomplete>(None)
    }

    fn step(context: &(), state: &mut ()) -> (r: Completable<Option<i32>>) {
        Ok(None)
    }
}

/// A generator step that yields the same item on every poll, without ever
/// ending the stream.
pub struct SingleItemGeneratorStep;

impl GeneratorStep<(), (), i32> for SingleItemGeneratorStep {
    open spec fn step_rel(context: (), pre: (), r: Completable<Option<i32>>, post: ()) -> bool {
        r == Ok::<Option<i32>, Incomplete>(Some(42))
    }

    fn step(context: &(), state: &mut ()) -> (r: Completable<Option<i32>>) {
        Ok(Some(42))
    }
}

/// A standalone [`Computable`] that counts up to a target, suspending on
/// every poll before the target is reached and then returning the count.
pub struct SuspendingComputable {
    /// How many polls have been performed.
    pub count: u32,
    /// The count at which the computation completes.
    pub target: u32,
}

impl Computable<u32> for SuspendingComputable {
    open spec fn poll_rel(pre: Self, r: Completable<u32>, post: Self) -> bool {
        post.count == bumped_u32(pre.count) && post.target == pre.target && if bumped_u32(pre.count)
            < pre.target {
            r == Err::<u32, Incomplete>(Incomplete::Suspended)
        } else {
            r == Ok::<u32, Incomplete>(bumped_u32(pre.count))
        }
    }

    fn try_compute(&mut self) -> (r: Completable<u32>) {
        if self.count < u32::MAX {
            self.count = self.count + 1;
        }
        if self.count < self.target {
            Err(Incomplete::Suspended)
        } else {
            Ok(self.count)
        }
    }
}

/// A standalone [`Generatable`] that yields the items of a list in order,
/// one per poll, and then ends.
pub struct ScriptedGenerator {
    /// The items the stream yields, in order.
    pub items: Vec<i32>,
    /// How many items have been yielded.
    pub index: usize,
}

impl Generatable<i32> for ScriptedGenerator {
    open spec fn next_rel(pre: Self, r: Option<Completable<i32>>, post: Self) -> bool {
        if pre.index < pre.items@.len() {
            &&& r == Some(Ok::<i32, Incomplete>(pre.items@[pre.index as int]))
            &&& post.items == pre.items
            &&& post.index == pre.index + 1
        } else {
            r is None && post == pre
        }
    }

    fn try_next(&mut self) -> (r: Option<Completable<i32>>) {
        if self.index < self.items.len() {
            let item = self.items[self.index];
            self.index = self.index + 1;
            Some(Ok(item))
        } else {
            None
        }
    }
}

/// A standalone [`Generatable`] that suspends on its very first poll and
/// then yields the items of a list in order.
pub struct SuspendingGenerator {
    /// The items the stream yields, in order.
    pub items: Vec<i32>,
    /// How many items have been yielded.
    pub index: usize,
    /// Whether the next poll is the first one, which suspends.
    pub first_call: bool,
}

impl Generatable<i32> for SuspendingGenerator {
    open spec fn next_rel(pre: Self, r: Option<Completable<i32>>, post: Self) -> bool {
        if pre.index < pre.items@.len() {
            if pre.first_call {
                &&& r == Some(Err::<i32, Incomplete>(Incomplete::Suspended))
                &&& post.items == pre.items
                &&& post.index == pre.index
                &&& post.first_call == false
            } else {
                &&& r == Some(Ok::<i32, Incomplete>(pre.items@[pre.index as int]))
                &&& post.items == pre.items
                &&& post.index == pre.index + 1
                &&& post.first_call == pre.first_call
            }
        } else {
            r is None && post == pre
        }
    }

    fn try_next(&mut self) -> (r: Option<Completable<i32>>) {
        if self.index < self.items.len() {
            if self.first_call {
                self.first_call = false;
                Some(Err(Incomplete::Suspended))
            } else {
                let item = self.items[self.index];
                self.index = self.index + 1;
                Some(Ok(item))
            }
        } else {
            None
        }
    }
}

/// Relies on `cancel_this::Cancelled::default`: a cancellation reason with
/// the unknown-trigger cause.
#[verifier::external_body]
fn unknown_cancelled() -> cancel_this::Cancelled {
    cancel_this::Cancelled::default()
}

/// A standalone [`Generatable`] that reports a cancellation on its first
/// poll and is permanently finished from then on.
pub struct CancellingGenerator {
    /// Whether the cancellation has already been reported.
    pub cancelled: bool,
}

impl Generatable<i32> for CancellingGenerator {
    open spec fn next_rel(pre: Self, r: Option<Completable<i32>>, post: Self) -> bool {
        if pre.cancelled {
            r is None && post == pre
        } else {
            (r matches Some(Err(Incomplete::Cancelled(_)))) && post.cancelled
        }
    }

    fn try_next(&mut self) -> (r: Option<Completable<i32>>) {
        if !self.cancelled {
            self.cancelled = true;
            Some(Err(Incomplete::Cancelled(unknown_cancelled())))
        } else {
            None
        }
    }
}

} // verus!
