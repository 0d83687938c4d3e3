use cancel_this::{CancelAtomic, CancelChain};
use computation_process::{
    CancelToken, CancellableGeneratorStep, CancellingGenerator, Collector, Computable,
    ComputableExt, Generator, Incomplete, ScriptedGenerator, Stateful, SuspendingGenerator,
};
use std::collections::HashSet;

#[test]
fn test_collector_from() {
    let generator = ScriptedGenerator { items: vec![1, 2, 3], index: 0 };
    let collector: Collector<i32, Vec<i32>, ScriptedGenerator> = Collector::new(generator);
    // Should have initialized with an empty accumulator
    assert!(collector.collector.is_some());
}

#[test]
fn test_collector_basic() {
    let generator = ScriptedGenerator { items: vec![1, 2, 3], index: 0 };
    let mut collector: Collector<i32, Vec<i32>, ScriptedGenerator> = Collector::new(generator);

    // First item
    assert_eq!(collector.try_compute(), Err(Incomplete::Suspended));

    // Second item
    assert_eq!(collector.try_compute(), Err(Incomplete::Suspended));

    // Third item
    assert_eq!(collector.try_compute(), Err(Incomplete::Suspended));

    // Collection complete
    let result = collector.try_compute().unwrap();
    assert_eq!(result, vec![1, 2, 3]);
}

#[test]
fn test_collector_compute() {
    let generator = ScriptedGenerator { items: vec![10, 20, 30], index: 0 };
    let mut collector: Collector<i32, Vec<i32>, ScriptedGenerator> = Collector::new(generator);

    let result = collector.compute().unwrap();
    assert_eq!(result, vec![10, 20, 30]);
}

#[test]
fn test_collector_empty() {
    let generator = ScriptedGenerator { items: vec![], index: 0 };
    let mut collector: Collector<i32, Vec<i32>, ScriptedGenerator> = Collector::new(generator);

    let result = collector.try_compute().unwrap();
    assert_eq!(result, Vec::<i32>::new());
}

#[test]
fn test_collector_single_item() {
    let generator = ScriptedGenerator { items: vec![42], index: 0 };
    let mut collector: Collector<i32, Vec<i32>, ScriptedGenerator> = Collector::new(generator);

    assert_eq!(collector.try_compute(), Err(Incomplete::Suspended));
    let result = collector.try_compute().unwrap();
    assert_eq!(result, vec![42]);
}

#[test]
fn test_collector_with_hashset() {
    let generator = ScriptedGenerator { items: vec![1, 2, 2, 3], index: 0 };
    let mut collector: Collector<i32, HashSet<i32>, ScriptedGenerator> = Collector::new(generator);

    // Collect all items
    let result = loop {
        match collector.try_compute() {
            Ok(result) => break result,
            Err(Incomplete::Suspended) => continue,
            Err(e) => panic!("Unexpected error: {:?}", e),
        }
    };

    assert_eq!(result.len(), 3); // the set collapses duplicates
    assert!(result.contains(&1));
    assert!(result.contains(&2));
    assert!(result.contains(&3));
}

#[test]
fn test_collector_with_suspensions() {
    let generator = SuspendingGenerator { items: vec![1, 2, 3], index: 0, first_call: true };
    let mut collector: Collector<i32, Vec<i32>, SuspendingGenerator> = Collector::new(generator);

    // First call: generator suspends on the first call
    assert_eq!(collector.try_compute(), Err(Incomplete::Suspended));

    // Second call: generator returns the first item, collector adds it and suspends
    assert_eq!(collector.try_compute(), Err(Incomplete::Suspended));

    // Third call: generator returns the second item, collector adds it and suspends
    assert_eq!(collector.try_compute(), Err(Incomplete::Suspended));

    // Fourth call: generator returns the third item, collector adds it and suspends
    assert_eq!(collector.try_compute(), Err(Incomplete::Suspended));

    // Fifth call: generator returns None, collector completes
    let result = collector.try_compute().unwrap();
    assert_eq!(result, vec![1, 2, 3]);
}

#[test]
fn test_collector_exhausted_after_completion() {
    let generator = ScriptedGenerator { items: vec![1], index: 0 };
    let mut collector: Collector<i32, Vec<i32>, ScriptedGenerator> = Collector::new(generator);

    // First call adds item and suspends
    assert_eq!(collector.try_compute(), Err(Incomplete::Suspended));

    // The second call completes
    let _ = collector.try_compute().unwrap();

    // Third call should return Exhausted
    assert_eq!(collector.try_compute(), Err(Incomplete::Exhausted));
}

#[test]
fn test_collector_cancellation() {
    let generator = CancellingGenerator { cancelled: false };
    let mut collector: Collector<i32, Vec<i32>, CancellingGenerator> = Collector::new(generator);

    let result = collector.try_compute();
    assert!(matches!(result, Err(Incomplete::Cancelled(_))));
}

#[test]
fn test_collector_with_cancellation() {
    let trigger = CancelAtomic::new();
    trigger.cancel(); // Pre-cancel

    let mut chain = CancelChain::default();
    chain.push(trigger);
    let generator = Generator::<u32, u32, u32, CancellableGeneratorStep>::from_parts(100, 0);
    let generator = generator.with_token(CancelToken::watching(chain));
    let mut collector: Collector<u32, Vec<u32>, _> = Collector::new(generator);

    let result = collector.compute();

    assert!(result.is_err());
}
