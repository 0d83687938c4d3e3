use cancel_this::{CancelAtomic, CancelChain};
use computation_process::{
    Algorithm, CancelToken, Computable, ComputableExt, Computation, ImmediateStep, Incomplete,
    LongRunningStep, NeverCompleteStep, SimpleStep, Stateful, TestComputationStep,
};

#[test]
fn test_computation_from_parts() {
    let computation = Computation::<i32, u32, String, SimpleStep>::from_parts(42, 0);
    assert_eq!(*computation.context(), 42);
    assert_eq!(*computation.state(), 0);
}

#[test]
fn test_computation_into_parts() {
    let computation = Computation::<i32, u32, String, SimpleStep>::from_parts(100, 5);
    let (context, state) = computation.into_parts();
    assert_eq!(context, 100);
    assert_eq!(state, 5);
}

#[test]
fn test_computation_state_mut() {
    let mut computation = Computation::<i32, u32, String, SimpleStep>::from_parts(42, 0);
    *computation.state_mut() = 10;
    assert_eq!(*computation.state(), 10);
}

#[test]
fn test_computation_try_compute() {
    let mut computation = Computation::<i32, u32, String, SimpleStep>::from_parts(42, 0);

    // The first call should suspend
    assert_eq!(computation.try_compute(), Err(Incomplete::Suspended));
    assert_eq!(*computation.state(), 1);

    // The second call should suspend
    assert_eq!(computation.try_compute(), Err(Incomplete::Suspended));
    assert_eq!(*computation.state(), 2);

    // The third call should complete
    let result = computation.try_compute().unwrap();
    assert_eq!(result, "context=42, state=3");
    assert_eq!(*computation.state(), 3);
}

#[test]
fn test_computation_compute() {
    let mut computation = Computation::<i32, u32, String, SimpleStep>::from_parts(100, 0);
    let result = computation.compute().unwrap();
    assert_eq!(result, "context=100, state=3");
    assert_eq!(*computation.state(), 3);
}

#[test]
fn test_computation_configure() {
    let computation = Computation::<i32, u32, String, SimpleStep>::configure(50, 0u32);
    assert_eq!(*computation.context(), 50);
    assert_eq!(*computation.state(), 0);
}

#[test]
fn test_computation_run() {
    let result = Computation::<i32, u32, String, SimpleStep>::run(200, 0u32).unwrap();
    assert_eq!(result, "context=200, state=3");
}

#[test]
fn test_computation_immediate_completion() {
    let mut computation = Computation::<(), (), i32, ImmediateStep>::from_parts((), ());
    let result = computation.try_compute().unwrap();
    assert_eq!(result, 42);
}

#[test]
fn test_computation_never_completes() {
    let mut computation = Computation::<(), (), i32, NeverCompleteStep>::from_parts((), ());
    // Driving this computation would loop forever, so poll it stepwise
    assert_eq!(computation.try_compute(), Err(Incomplete::Suspended));
    assert_eq!(computation.try_compute(), Err(Incomplete::Suspended));
}

#[test]
fn test_computation_exhausted_after_completion() {
    let mut computation = Computation::<(), (), i32, ImmediateStep>::from_parts((), ());
    assert_eq!(computation.try_compute(), Ok(42));
    // Polling past completion reports exhaustion, permanently
    assert_eq!(computation.try_compute(), Err(Incomplete::Exhausted));
    assert_eq!(computation.try_compute(), Err(Incomplete::Exhausted));
}

#[test]
fn test_stateful_from_parts() {
    let stateful = Computation::<i32, u32, String, TestComputationStep>::from_parts(42, 0);
    assert_eq!(*stateful.context(), 42);
    assert_eq!(*stateful.state(), 0);
}

#[test]
fn test_stateful_configure() {
    let stateful = Computation::<i32, u32, String, TestComputationStep>::configure(100, 5u32);
    assert_eq!(*stateful.context(), 100);
    assert_eq!(*stateful.state(), 5);
}

#[test]
fn test_stateful_into_parts() {
    let stateful = Computation::<i32, u32, String, TestComputationStep>::from_parts(50, 10);
    let (context, state) = stateful.into_parts();
    assert_eq!(context, 50);
    assert_eq!(state, 10);
}

#[test]
fn test_stateful_context() {
    let stateful = Computation::<i32, u32, String, TestComputationStep>::from_parts(200, 0);
    assert_eq!(*stateful.context(), 200);
}

#[test]
fn test_stateful_state() {
    let stateful = Computation::<i32, u32, String, TestComputationStep>::from_parts(0, 42);
    assert_eq!(*stateful.state(), 42);
}

#[test]
fn test_stateful_state_mut() {
    let mut stateful = Computation::<i32, u32, String, TestComputationStep>::from_parts(0, 0);
    *stateful.state_mut() = 100;
    assert_eq!(*stateful.state(), 100);
}

#[test]
fn test_algorithm_run() {
    let result = Computation::<i32, u32, String, TestComputationStep>::run(42, 0u32).unwrap();
    assert_eq!(result, "done-42");
}

#[test]
fn test_stateful_configure_with_conversions() {
    // configure accepts anything convertible into the context and state
    let stateful = Computation::<i32, u32, String, TestComputationStep>::configure(42i16, 10u16);
    assert_eq!(*stateful.context(), 42i32);
    assert_eq!(*stateful.state(), 10u32);
}

#[test]
fn test_computation_cancellation() {
    let trigger = CancelAtomic::new();
    trigger.cancel(); // Pre-cancel

    let mut chain = CancelChain::default();
    chain.push(trigger);
    let computation = Computation::<u32, u32, u32, LongRunningStep>::from_parts(1000, 0);
    let mut computation = computation.with_token(CancelToken::watching(chain));

    let result = computation.try_compute();

    assert!(matches!(result, Err(Incomplete::Cancelled(_))));
}

#[test]
fn test_computation_compute_with_cancellation() {
    let trigger = CancelAtomic::new();
    trigger.cancel(); // Pre-cancel

    let mut chain = CancelChain::default();
    chain.push(trigger);
    let computation = Computation::<u32, u32, u32, LongRunningStep>::from_parts(1000, 0);
    let mut computation = computation.with_token(CancelToken::watching(chain));

    let result = computation.compute();

    assert!(result.is_err());
}

#[test]
fn test_cancellation_leaves_state_untouched() {
    let trigger = CancelAtomic::new();
    trigger.cancel(); // Pre-cancel

    let mut chain = CancelChain::default();
    chain.push(trigger);
    let computation = Computation::<u32, u32, u32, LongRunningStep>::from_parts(1000, 7);
    let mut computation = computation.with_token(CancelToken::watching(chain));

    let result = computation.try_compute();

    // Cancellation is observed before the step runs: zero state mutation
    assert!(matches!(result, Err(Incomplete::Cancelled(_))));
    assert_eq!(*computation.state(), 7);
}

#[test]
fn test_inert_token_never_cancels() {
    let mut computation = Computation::<u32, u32, u32, LongRunningStep>::from_parts(3, 0);
    // Without a watched trigger the computation runs to its own completion
    assert_eq!(computation.try_compute(), Err(Incomplete::Suspended));
    assert_eq!(computation.try_compute(), Err(Incomplete::Suspended));
    assert_eq!(computation.try_compute(), Ok(3));
}
