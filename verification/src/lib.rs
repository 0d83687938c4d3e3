//! A cooperative computation framework: long-running, CPU-bound work is
//! expressed as a sequence of discrete, interruptible steps, so that a single
//! thread can suspend a computation at well-defined points, resume it later,
//! interleave it with other computations, cancel it cooperatively, or persist
//! its context and state for later continuation.
//!
//! The driving types consult an explicit cooperative-cancellation token
//! (backed by the `cancel_this` crate's triggers) once at the start of every
//! poll, and every poll returns a [`Completable`] value: either the final
//! result, or an [`Incomplete`] signal saying why the result is not ready.

mod algorithm;
mod cancel;
mod collector;
mod completable;
mod computable;
mod computable_identity;
mod computation;
mod generatable;
mod generator;
mod laws;
mod steps;

pub use algorithm::{drive_outcome, Algorithm, GenAlgorithm, Stateful};
pub use cancel::{lemma_inert_tokens_equal, CancelToken};
pub use collector::{collapsed, Accumulator, Collector};
pub use completable::{Cancellable, Completable, Incomplete};
pub use computable::{
    chain_end, never_exhausts, suspend_chain, suspends_bounded, Computable, ComputableExt,
    ComputableResult,
};
pub use computable_identity::ComputableIdentity;
pub use computation::{
    lemma_fresh_computation_unique, step_completes, Computation, ComputationStep,
};
pub use generatable::{
    pull_outcome, settled_item, stream_suspend_chain, stream_suspends_bounded, Generatable,
    GeneratableExt,
};
pub use generator::{
    lemma_fresh_generator_unique, stream_closes, transposed, Generator, GeneratorStep,
};
pub use laws::{
    lemma_cancelled_without_mutation, lemma_collector_gathers_all, lemma_compute_poll_count,
    lemma_empty_stream, lemma_empty_stream_collects_empty, lemma_script_drives_to_completion,
    lemma_scripted_collector_drives, step_deterministic, step_script,
};
pub use steps::{
    bumped_u32, context_state_text, decimal_digits, done_text, item_text, pair_text, wrap_sum,
    CancellableGeneratorStep, CancellingGenerator, EmptyGeneratorStep, ImmediateStep,
    LongRunningStep, NeverCompleteStep, RangeGeneratorStep, ScriptedGenerator,
    SimpleGeneratorStep, SimpleStep, SingleItemGeneratorStep, SumComputationStep,
    SuspendingComputable, SuspendingGenerator, SuspendingGeneratorStep, TestComputationStep,
    TestGeneratorStep,
};
