use computation_process::{
    Algorithm, Computable, ComputableExt, ComputableResult, Computation, GenAlgorithm,
    Generatable, Generator, Incomplete, RangeGeneratorStep, Stateful, SumComputationStep,
};

#[test]
fn test_end_to_end_computation_with_suspensions() {
    let mut computation =
        Computation::<Vec<i32>, i32, i32, SumComputationStep>::from_parts(vec![1, 2, 3], 0);

    // The first call should suspend
    assert!(matches!(computation.try_compute(), Err(Incomplete::Suspended)));

    // The second call should suspend
    assert!(matches!(computation.try_compute(), Err(Incomplete::Suspended)));

    // The third call should suspend
    assert!(matches!(computation.try_compute(), Err(Incomplete::Suspended)));

    // Fourth call should complete
    let result = computation.try_compute().unwrap();
    assert_eq!(result, 6);
}

#[test]
fn test_end_to_end_generator_collection() {
    let generator = Generator::<i32, i32, i32, RangeGeneratorStep>::from_parts(4, 0);
    let mut computation = generator.computation::<Vec<i32>>();
    let result = computation.compute().unwrap();
    assert_eq!(result, vec![1, 2, 3, 4]);
}

#[test]
fn test_algorithm_run_static_method() {
    let result =
        Computation::<Vec<i32>, i32, i32, SumComputationStep>::run(vec![5, 10, 15], 0i32).unwrap();
    assert_eq!(result, 30);
}

#[test]
fn test_computable_result_integration() {
    let computation =
        Computation::<Vec<i32>, i32, i32, SumComputationStep>::from_parts(vec![1, 2], 0);
    let mut result = ComputableResult::new(computation);

    // The computation suspends multiple times, so call try_compute until it succeeds
    let computed = loop {
        match result.try_compute() {
            Ok(value) => break *value,
            Err(Incomplete::Suspended) => continue,
            Err(e) => panic!("Unexpected error: {:?}", e),
        }
    };
    assert_eq!(computed, 3);

    // The second call returns the cached result without re-polling the
    // wrapped computation; its state is exactly as the final poll left it
    let state_before = *result.computable_ref().state();
    let cached = *result.try_compute().unwrap();
    assert_eq!(cached, 3);
    assert_eq!(*result.computable_ref().state(), state_before);
}

#[test]
fn test_sum_example_six_polls() {
    // context = [1, 2, 3, 4, 5]; the step advances an index counter and
    // suspends until the counter reaches the list's length, then returns the
    // sum: driving to completion takes 6 polls and yields 15.
    let mut computation =
        Computation::<Vec<i32>, i32, i32, SumComputationStep>::from_parts(vec![1, 2, 3, 4, 5], 0);
    let mut polls: u32 = 0;
    let result = loop {
        polls += 1;
        match computation.try_compute() {
            Ok(value) => break value,
            Err(Incomplete::Suspended) => continue,
            Err(e) => panic!("Unexpected error: {:?}", e),
        }
    };
    assert_eq!(polls, 6);
    assert_eq!(result, 15);
}

#[test]
fn test_range_generator_items() {
    let mut generator = Generator::<i32, i32, i32, RangeGeneratorStep>::from_parts(5, 0);
    let mut items: Vec<i32> = Vec::new();
    while let Some(item) = generator.try_next() {
        items.push(item.unwrap());
    }
    assert_eq!(items, vec![1, 2, 3, 4, 5]);
}

#[test]
fn test_sum_of_empty_list() {
    let mut computation =
        Computation::<Vec<i32>, i32, i32, SumComputationStep>::from_parts(vec![], 0);
    // No items: the very first poll completes with the empty sum
    assert_eq!(computation.try_compute(), Ok(0));
}
