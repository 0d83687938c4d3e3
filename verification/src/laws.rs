//! The laws the driving types obey, stated over the step relations that
//! algorithm authors write and proved against the contracts of the drivers.

use crate::collector::{Accumulator, Collector};
use crate::completable::{Completable, Incomplete};
use crate::computable::{chain_end, never_exhausts, suspend_chain, suspends_bounded, Computable};
use crate::computation::{Computation, ComputationStep};
use crate::generatable::Generatable;
use crate::generator::{Generator, GeneratorStep};
use crate::steps::ScriptedGenerator;
use vstd::prelude::*;

verus! {

/// Whether the step relation is a function of the incoming state, as the
/// step contract intends: a pure step gives every state exactly one outcome.
pub open spec fn step_deterministic<
    CONTEXT,
    STATE,
    OUTPUT,
    STEP: ComputationStep<CONTEXT, STATE, OUTPUT>,
>(context: CONTEXT) -> bool {
    forall|s: STATE, r1: Completable<OUTPUT>, s1: STATE, r2: Completable<OUTPUT>, s2: STATE|
        #![trigger STEP::step_rel(context, s, r1, s1), STEP::step_rel(context, s, r2, s2)]
        STEP::step_rel(context, s, r1, s1) && STEP::step_rel(context, s, r2, s2) ==> r1 == r2 && s1
            == s2
}

/// Whether `script` lists, in order, the states a step function starting at
/// `start` passes through while every step returns
/// `Err(Incomplete::Suspended)`.
pub open spec fn step_script<
    CONTEXT,
    STATE,
    OUTPUT,
    STEP: ComputationStep<CONTEXT, STATE, OUTPUT>,
>(context: CONTEXT, start: STATE, script: Seq<STATE>) -> bool
    decreases script.len(),
{
    script.len() == 0 || {
        &&& step_script::<CONTEXT, STATE, OUTPUT, STEP>(context, start, script.drop_last())
        &&& STEP::step_rel(
            context,
            chain_end(start, script.drop_last()),
            Err(Incomplete::Suspended),
            script.last(),
        )
    }
}

proof fn lemma_step_script_prefix<
    CONTEXT,
    STATE,
    OUTPUT,
    STEP: ComputationStep<CONTEXT, STATE, OUTPUT>,
>(context: CONTEXT, start: STATE, script: Seq<STATE>, j: int)
    requires
        step_script::<CONTEXT, STATE, OUTPUT, STEP>(context, start, script),
        0 <= j <= script.len(),
    ensures
        step_script::<CONTEXT, STATE, OUTPUT, STEP>(context, start, script.take(j)),
    decreases script.len(),
{
    if j == script.len() {
        assert(script.take(j) =~= script);
    } else {
        assert(script.drop_last().take(j) =~= script.take(j));
        lemma_step_script_prefix::<CONTEXT, STATE, OUTPUT, STEP>(
            context,
            start,
            script.drop_last(),
            j,
        );
    }
}

proof fn lemma_step_script_index<
    CONTEXT,
    STATE,
    OUTPUT,
    STEP: ComputationStep<CONTEXT, STATE, OUTPUT>,
>(context: CONTEXT, start: STATE, script: Seq<STATE>, j: int)
    requires
        step_script::<CONTEXT, STATE, OUTPUT, STEP>(context, start, script),
        0 <= j < script.len(),
    ensures
        STEP::step_rel(
            context,
            chain_end(start, script.take(j)),
            Err(Incomplete::Suspended),
            script[j],
        ),
{
    lemma_step_script_prefix::<CONTEXT, STATE, OUTPUT, STEP>(context, start, script, j + 1);
    let prefix = script.take(j + 1);
    assert(prefix.drop_last() =~= script.take(j));
    assert(prefix.last() == script[j]);
}

proof fn lemma_chain_mirrors_script<
    CONTEXT,
    STATE,
    OUTPUT,
    STEP: ComputationStep<CONTEXT, STATE, OUTPUT>,
>(
    start: Computation<CONTEXT, STATE, OUTPUT, STEP>,
    script: Seq<STATE>,
    v: OUTPUT,
    settled: STATE,
    states: Seq<Computation<CONTEXT, STATE, OUTPUT, STEP>>,
)
    requires
        step_deterministic::<CONTEXT, STATE, OUTPUT, STEP>(start.context),
        !start.completed,
        start.token.is_inert(),
        step_script::<CONTEXT, STATE, OUTPUT, STEP>(start.context, start.state, script),
        STEP::step_rel(start.context, chain_end(start.state, script), Ok(v), settled),
        suspend_chain(start, states),
    ensures
        states.len() <= script.len(),
        chain_end(start, states) == start.advanced(
            chain_end(start.state, script.take(states.len() as int)),
            false,
        ),
    decreases states.len(),
{
    if states.len() == 0 {
        assert(script.take(0) =~= Seq::<STATE>::empty());
    } else {
        let shorter = states.drop_last();
        lemma_chain_mirrors_script(start, script, v, settled, shorter);
        let j = shorter.len() as int;
        let end_prev = chain_end(start, shorter);
        let last = states.last();
        assert(Computation::poll_rel(end_prev, Err(Incomplete::Suspended), last));
        assert(!end_prev.completed && end_prev.token.is_inert());
        let s2 = choose|s2: STATE|
            #[trigger] STEP::step_rel(
                end_prev.context,
                end_prev.state,
                Err::<OUTPUT, Incomplete>(Incomplete::Suspended),
                s2,
            ) && last == end_prev.advanced(s2, false);
        if j == script.len() {
            // the script settles here, so a suspended poll is impossible
            assert(end_prev.state == chain_end(start.state, script)) by {
                assert(script.take(j) =~= script);
            }
            assert(false);
        }
        lemma_step_script_index::<CONTEXT, STATE, OUTPUT, STEP>(
            start.context,
            start.state,
            script,
            j,
        );
        assert(s2 == script[j]);
        assert(script.take(j + 1).last() == script[j]);
    }
}

/// Driving a computation to completion performs exactly one poll per
/// suspension, plus the final one.
///
/// For a pure (deterministic) step function that, from the start state,
/// suspends through the states of `script` and then returns the value `v`,
/// any run of suspended polls of a fresh computation followed by a settling
/// poll performs exactly `script.len()` suspended polls, and the settling
/// poll returns exactly `Ok(v)`. Together with the contract of
/// [`crate::ComputableExt::compute`], a step sequence of `k` suspensions
/// before a final value means driving to completion performs exactly `k + 1`
/// polls and returns the value of the last one.
pub proof fn lemma_compute_poll_count<
    CONTEXT,
    STATE,
    OUTPUT,
    STEP: ComputationStep<CONTEXT, STATE, OUTPUT>,
>(
    start: Computation<CONTEXT, STATE, OUTPUT, STEP>,
    script: Seq<STATE>,
    v: OUTPUT,
    settled: STATE,
    states: Seq<Computation<CONTEXT, STATE, OUTPUT, STEP>>,
    r: Completable<OUTPUT>,
    post: Computation<CONTEXT, STATE, OUTPUT, STEP>,
)
    requires
        step_deterministic::<CONTEXT, STATE, OUTPUT, STEP>(start.context),
        !start.completed,
        start.token.is_inert(),
        step_script::<CONTEXT, STATE, OUTPUT, STEP>(start.context, start.state, script),
        STEP::step_rel(start.context, chain_end(start.state, script), Ok(v), settled),
        suspend_chain(start, states),
        Computation::poll_rel(chain_end(start, states), r, post),
        r != Err::<OUTPUT, Incomplete>(Incomplete::Suspended),
    ensures
        states.len() == script.len(),
        r == Ok::<OUTPUT, Incomplete>(v),
{
    lemma_chain_mirrors_script(start, script, v, settled, states);
    let j = states.len() as int;
    let end = chain_end(start, states);
    assert(!end.completed && end.token.is_inert());
    let s2 = choose|s2: STATE| #[trigger] STEP::step_rel(end.context, end.state, r, s2) && post
        == end.advanced(s2, crate::computation::step_completes(r));
    if j < script.len() {
        // the script still suspends here, so a settling poll is impossible
        lemma_step_script_index::<CONTEXT, STATE, OUTPUT, STEP>(
            start.context,
            start.state,
            script,
            j,
        );
        assert(false);
    }
    assert(script.take(j) =~= script);
}

/// Cancellation observed before any step executes yields `Cancelled` with
/// zero state mutation.
///
/// For a step function that never reports a cancellation of its own, a poll
/// of an active computation that returns `Err(Incomplete::Cancelled(_))` can
/// only have observed the token's cancellation before invoking the step: the
/// state is left untouched and the computation is completed.
pub proof fn lemma_cancelled_without_mutation<
    CONTEXT,
    STATE,
    OUTPUT,
    STEP: ComputationStep<CONTEXT, STATE, OUTPUT>,
>(
    pre: Computation<CONTEXT, STATE, OUTPUT, STEP>,
    r: Completable<OUTPUT>,
    post: Computation<CONTEXT, STATE, OUTPUT, STEP>,
)
    requires
        !pre.completed,
        forall|s: STATE, r2: Completable<OUTPUT>, s2: STATE|
            #[trigger] STEP::step_rel(pre.context, s, r2, s2) ==> !(r2 matches Err(
                Incomplete::Cancelled(_),
            )),
        Computation::poll_rel(pre, r, post),
        r matches Err(Incomplete::Cancelled(_)),
    ensures
        post.state == pre.state,
        post.completed,
        post.context == pre.context,
{
}

/// A `Generator` whose step immediately ends the stream produces an empty
/// stream on the first poll: it returns `None` and the stream is permanently
/// finished.
pub proof fn lemma_empty_stream<
    CONTEXT,
    STATE,
    ITEM,
    STEP: GeneratorStep<CONTEXT, STATE, ITEM>,
>(
    pre: Generator<CONTEXT, STATE, ITEM, STEP>,
    r: Option<Completable<ITEM>>,
    post: Generator<CONTEXT, STATE, ITEM, STEP>,
)
    requires
        !pre.finished,
        pre.token.is_inert(),
        forall|sr: Completable<Option<ITEM>>, s2: STATE|
            #[trigger] STEP::step_rel(pre.context, pre.state, sr, s2) ==> sr == Ok::<
                Option<ITEM>,
                Incomplete,
            >(None),
        Generator::next_rel(pre, r, post),
    ensures
        r is None,
        post.finished,
{
}

/// A stream that is already empty accumulates to an empty collection: the
/// first poll of a [`Collector`] over a generator whose step immediately
/// ends the stream hands out the untouched empty accumulator.
pub proof fn lemma_empty_stream_collects_empty<
    CONTEXT,
    STATE,
    ITEM,
    COLLECTION: Accumulator<ITEM>,
    STEP: GeneratorStep<CONTEXT, STATE, ITEM>,
>(
    pre: Collector<ITEM, COLLECTION, Generator<CONTEXT, STATE, ITEM, STEP>>,
    r: Completable<COLLECTION>,
    post: Collector<ITEM, COLLECTION, Generator<CONTEXT, STATE, ITEM, STEP>>,
)
    requires
        !pre.generator.finished,
        pre.generator.token.is_inert(),
        forall|sr: Completable<Option<ITEM>>, s2: STATE|
            #[trigger] STEP::step_rel(pre.generator.context, pre.generator.state, sr, s2) ==> sr
                == Ok::<Option<ITEM>, Incomplete>(None),
        pre.collector matches Some(acc) && acc.models(Seq::<ITEM>::empty()),
        Collector::poll_rel(pre, r, post),
    ensures
        r matches Ok(col) && col.models(Seq::<ITEM>::empty()),
{
    let go = choose|go: Option<Completable<ITEM>>|
        #[trigger] Generator::next_rel(pre.generator, go, post.generator) && match go {
            None => match pre.collector {
                Some(acc) => r == Ok::<COLLECTION, Incomplete>(acc) && post.collector is None,
                None => r == Err::<COLLECTION, Incomplete>(Incomplete::Exhausted) && post.collector
                    is None,
            },
            Some(Ok(item)) => match pre.collector {
                Some(acc) => {
                    &&& r == Err::<COLLECTION, Incomplete>(Incomplete::Suspended)
                    &&& exists|acc2: COLLECTION|
                        #[trigger] COLLECTION::folds(acc, item, acc2) && post.collector == Some(
                            acc2,
                        )
                },
                None => r == Err::<COLLECTION, Incomplete>(Incomplete::Exhausted) && post.collector
                    is None,
            },
            Some(Err(Incomplete::Cancelled(c))) => r == Err::<COLLECTION, Incomplete>(
                Incomplete::Cancelled(c),
            ) && post.collector is None,
            Some(Err(e)) => r == Err::<COLLECTION, Incomplete>(e) && post.collector
                == pre.collector,
        };
    lemma_empty_stream(pre.generator, go, post.generator);
}

proof fn lemma_collector_chain<COLLECTION: Accumulator<i32>>(
    start: Collector<i32, COLLECTION, ScriptedGenerator>,
    states: Seq<Collector<i32, COLLECTION, ScriptedGenerator>>,
)
    requires
        start.generator.index == 0,
        start.collector matches Some(acc) && acc.models(Seq::<i32>::empty()),
        suspend_chain(start, states),
    ensures
        states.len() <= start.generator.items@.len(),
        ({
            let end = chain_end(start, states);
            &&& end.generator.items == start.generator.items
            &&& end.generator.index == states.len()
            &&& end.collector matches Some(acc) && acc.models(
                start.generator.items@.take(states.len() as int),
            )
        }),
    decreases states.len(),
{
    if states.len() == 0 {
        assert(start.generator.items@.take(0) =~= Seq::<i32>::empty());
    } else {
        let shorter = states.drop_last();
        lemma_collector_chain(start, shorter);
        let j = shorter.len() as int;
        let end_prev = chain_end(start, shorter);
        let last = states.last();
        assert(Collector::poll_rel(end_prev, Err(Incomplete::Suspended), last));
        // the poll relation instantiated at a suspended result: the
        // stream-ended arm demands the impossible, which rules it out
        let go = choose|go: Option<Completable<i32>>|
            #[trigger] ScriptedGenerator::next_rel(end_prev.generator, go, last.generator)
                && match go {
                None => match end_prev.collector {
                    Some(acc) => Err::<COLLECTION, Incomplete>(Incomplete::Suspended) == Ok::<
                        COLLECTION,
                        Incomplete,
                    >(acc) && last.collector is None,
                    None => last.collector is None,
                },
                Some(Ok(item)) => match end_prev.collector {
                    Some(acc) => exists|acc2: COLLECTION|
                        #[trigger] COLLECTION::folds(acc, item, acc2) && last.collector == Some(
                            acc2,
                        ),
                    None => last.collector is None,
                },
                Some(Err(e)) => true,
            };
        let acc_prev = end_prev.collector->0;
        if end_prev.generator.index < end_prev.generator.items@.len() {
            let item = end_prev.generator.items@[j];
            let acc2 = choose|acc2: COLLECTION|
                #[trigger] COLLECTION::folds(acc_prev, item, acc2) && last.collector == Some(acc2);
            COLLECTION::folds_extend(
                acc_prev,
                item,
                acc2,
                start.generator.items@.take(j),
            );
            assert(start.generator.items@.take(j).push(item) =~= start.generator.items@.take(
                j + 1,
            ));
        } else {
            // the stream has ended, so a suspended poll is impossible
            assert(false);
        }
    }
}

/// A [`Collector`] over a stream that yields the items of a list in order
/// performs one suspended poll per item and then hands out the accumulated
/// collection.
///
/// Any run of suspended polls of a fresh collector over such a stream,
/// followed by a settling poll, performs exactly one suspended poll per item
/// of the list, and the settling poll returns a collection that models the
/// whole list: in original order for an order-preserving accumulator, with
/// duplicates collapsed for a set-like one. Together with the contract of
/// [`crate::ComputableExt::compute`], a stream of `n` items means exactly
/// `n + 1` polls: `n` returning `Suspended` and a last one returning the
/// collection.
pub proof fn lemma_collector_gathers_all<COLLECTION: Accumulator<i32>>(
    start: Collector<i32, COLLECTION, ScriptedGenerator>,
    states: Seq<Collector<i32, COLLECTION, ScriptedGenerator>>,
    r: Completable<COLLECTION>,
    post: Collector<i32, COLLECTION, ScriptedGenerator>,
)
    requires
        start.generator.index == 0,
        start.collector matches Some(acc) && acc.models(Seq::<i32>::empty()),
        suspend_chain(start, states),
        Collector::poll_rel(chain_end(start, states), r, post),
        r != Err::<COLLECTION, Incomplete>(Incomplete::Suspended),
    ensures
        states.len() == start.generator.items@.len(),
        r matches Ok(col) && col.models(start.generator.items@),
{
    lemma_collector_chain(start, states);
    let j = states.len() as int;
    let end = chain_end(start, states);
    let go = choose|go: Option<Completable<i32>>|
        #[trigger] ScriptedGenerator::next_rel(end.generator, go, post.generator) && match go {
            None => match end.collector {
                Some(acc) => r == Ok::<COLLECTION, Incomplete>(acc) && post.collector is None,
                None => r == Err::<COLLECTION, Incomplete>(Incomplete::Exhausted) && post.collector
                    is None,
            },
            Some(Ok(item)) => match end.collector {
                Some(acc) => {
                    &&& r == Err::<COLLECTION, Incomplete>(Incomplete::Suspended)
                    &&& exists|acc2: COLLECTION|
                        #[trigger] COLLECTION::folds(acc, item, acc2) && post.collector == Some(
                            acc2,
                        )
                },
                None => r == Err::<COLLECTION, Incomplete>(Incomplete::Exhausted) && post.collector
                    is None,
            },
            Some(Err(Incomplete::Cancelled(c))) => r == Err::<COLLECTION, Incomplete>(
                Incomplete::Cancelled(c),
            ) && post.collector is None,
            Some(Err(e)) => r == Err::<COLLECTION, Incomplete>(e) && post.collector
                == end.collector,
        };
    if end.generator.index < end.generator.items@.len() {
        // the stream still has an item, so the poll would have suspended
        assert(false);
    }
    assert(start.generator.items@.take(j) =~= start.generator.items@);
}


/// A pure step function that suspends through the states of `script` and
/// then completes lets the computation be driven to completion: every run of
/// suspended polls is bounded by the script's length, and no poll can
/// observe `Incomplete::Exhausted` on the way. These are exactly the
/// guarantees [`crate::ComputableExt::compute`] asks of its caller.
pub proof fn lemma_script_drives_to_completion<
    CONTEXT,
    STATE,
    OUTPUT,
    STEP: ComputationStep<CONTEXT, STATE, OUTPUT>,
>(
    start: Computation<CONTEXT, STATE, OUTPUT, STEP>,
    script: Seq<STATE>,
    v: OUTPUT,
    settled: STATE,
)
    requires
        step_deterministic::<CONTEXT, STATE, OUTPUT, STEP>(start.context),
        !start.completed,
        start.token.is_inert(),
        step_script::<CONTEXT, STATE, OUTPUT, STEP>(start.context, start.state, script),
        STEP::step_rel(start.context, chain_end(start.state, script), Ok(v), settled),
    ensures
        suspends_bounded(start, script.len()),
        never_exhausts(start),
{
    assert forall|states: Seq<Computation<CONTEXT, STATE, OUTPUT, STEP>>|
        #[trigger] suspend_chain(start, states) implies states.len() <= script.len() by {
        lemma_chain_mirrors_script(start, script, v, settled, states);
    }
    assert forall|
        states: Seq<Computation<CONTEXT, STATE, OUTPUT, STEP>>,
        r: Completable<OUTPUT>,
        post: Computation<CONTEXT, STATE, OUTPUT, STEP>,
    |
        suspend_chain(start, states) && #[trigger] Computation::poll_rel(
            chain_end(start, states),
            r,
            post,
        ) implies r != Err::<OUTPUT, Incomplete>(Incomplete::Exhausted) by {
        lemma_chain_mirrors_script(start, script, v, settled, states);
        let j = states.len() as int;
        let end = chain_end(start, states);
        assert(!end.completed && end.token.is_inert());
        if !(r matches Err(Incomplete::Cancelled(_))) {
            let s2 = choose|s2: STATE| #[trigger] STEP::step_rel(end.context, end.state, r, s2)
                && post == end.advanced(s2, crate::computation::step_completes(r));
            if j < script.len() {
                lemma_step_script_index::<CONTEXT, STATE, OUTPUT, STEP>(
                    start.context,
                    start.state,
                    script,
                    j,
                );
            } else {
                assert(script.take(j) =~= script);
            }
        }
    }
}

/// A fresh [`Collector`] over a stream that yields the items of a list can
/// be driven to completion: every run of suspended polls is bounded by the
/// list's length, and no poll can observe `Incomplete::Exhausted` on the
/// way. These are exactly the guarantees [`crate::ComputableExt::compute`]
/// asks of its caller.
pub proof fn lemma_scripted_collector_drives<COLLECTION: Accumulator<i32>>(
    start: Collector<i32, COLLECTION, ScriptedGenerator>,
)
    requires
        start.generator.index == 0,
        start.collector matches Some(acc) && acc.models(Seq::<i32>::empty()),
    ensures
        suspends_bounded(start, start.generator.items@.len() as nat),
        never_exhausts(start),
{
    assert forall|states: Seq<Collector<i32, COLLECTION, ScriptedGenerator>>|
        #[trigger] suspend_chain(start, states) implies states.len()
        <= start.generator.items@.len() by {
        lemma_collector_chain(start, states);
    }
    assert forall|
        states: Seq<Collector<i32, COLLECTION, ScriptedGenerator>>,
        r: Completable<COLLECTION>,
        post: Collector<i32, COLLECTION, ScriptedGenerator>,
    |
        suspend_chain(start, states) && #[trigger] Collector::poll_rel(
            chain_end(start, states),
            r,
            post,
        ) implies r != Err::<COLLECTION, Incomplete>(Incomplete::Exhausted) by {
        if r != Err::<COLLECTION, Incomplete>(Incomplete::Suspended) {
            lemma_collector_gathers_all(start, states, r, post);
        }
    }
}

} // verus!
