//! Persisting a computation mid-sequence: the context and state carry all
//! persistent data, so encoding them, decoding them, and resuming from the
//! rebuilt instance yields the same final value as polling the original
//! without interruption.

use computation_process::{
    Computable, ComputableExt, Computation, GenAlgorithm, Generatable, Generator, Incomplete,
    RangeGeneratorStep, Stateful, SumComputationStep,
};

#[test]
fn test_computation_round_trip_resumes() {
    // Drive the original some of the way: two of the five suspensions
    let mut original =
        Computation::<Vec<i32>, i32, i32, SumComputationStep>::from_parts(vec![1, 2, 3, 4, 5], 0);
    assert_eq!(original.try_compute(), Err(Incomplete::Suspended));
    assert_eq!(original.try_compute(), Err(Incomplete::Suspended));

    // Encode the context/state pair mid-sequence and decode it again
    let (context, state) = original.into_parts();
    let encoded = serde_json::to_string(&(context, state)).unwrap();
    let (context, state): (Vec<i32>, i32) = serde_json::from_str(&encoded).unwrap();

    // Resume the rebuilt computation and drive it to completion
    let mut rebuilt = Computation::<Vec<i32>, i32, i32, SumComputationStep>::from_parts(
        context, state,
    );
    assert_eq!(rebuilt.compute().unwrap(), 15);

    // The uninterrupted run gives the same final value
    let mut uninterrupted =
        Computation::<Vec<i32>, i32, i32, SumComputationStep>::from_parts(vec![1, 2, 3, 4, 5], 0);
    assert_eq!(uninterrupted.compute().unwrap(), 15);
}

#[test]
fn test_generator_round_trip_resumes() {
    // Pull two of the four items
    let mut original = Generator::<i32, i32, i32, RangeGeneratorStep>::from_parts(4, 0);
    assert_eq!(original.try_next(), Some(Ok(1)));
    assert_eq!(original.try_next(), Some(Ok(2)));

    // Encode the context/state pair mid-stream and decode it again
    let (context, state) = original.into_parts();
    let encoded = serde_json::to_string(&(context, state)).unwrap();
    let (context, state): (i32, i32) = serde_json::from_str(&encoded).unwrap();

    // The rebuilt generator yields exactly the remaining items
    let mut rebuilt = Generator::<i32, i32, i32, RangeGeneratorStep>::from_parts(context, state);
    assert_eq!(rebuilt.try_next(), Some(Ok(3)));
    assert_eq!(rebuilt.try_next(), Some(Ok(4)));
    assert_eq!(rebuilt.try_next(), None);
}

#[test]
fn test_collector_round_trip_resumes() {
    // Collect the stream's remaining items after rebuilding mid-stream
    let mut original = Generator::<i32, i32, i32, RangeGeneratorStep>::from_parts(9, 5);
    assert_eq!(original.try_next(), Some(Ok(6)));

    let (context, state) = original.into_parts();
    let encoded = serde_json::to_string(&(context, state)).unwrap();
    let (context, state): (i32, i32) = serde_json::from_str(&encoded).unwrap();

    let rebuilt = Generator::<i32, i32, i32, RangeGeneratorStep>::from_parts(context, state);
    let mut collector = rebuilt.computation::<Vec<i32>>();
    assert_eq!(collector.compute().unwrap(), vec![7, 8, 9]);
}
