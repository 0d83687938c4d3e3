use computation_process::{
    Computable, ComputableExt, ComputableIdentity, ComputableResult, Incomplete,
    SuspendingComputable,
};

#[test]
fn test_computable_result_from() {
    let identity: ComputableIdentity<i32> = 42.into();
    let result: ComputableResult<i32, ComputableIdentity<i32>> = identity.into();
    assert!(result.result_ref().is_none());
}

#[test]
fn test_computable_result_new() {
    let identity: ComputableIdentity<i32> = 100.into();
    let mut result = ComputableResult::new(identity);
    assert!(result.result_ref().is_none());

    let computed = result.try_compute().unwrap();
    assert_eq!(*computed, 100);
    assert_eq!(result.result_ref(), Some(&100));
}

#[test]
fn test_computable_result_try_compute_multiple_times() {
    let identity: ComputableIdentity<String> = "test".to_string().into();
    let mut result = ComputableResult::new(identity);

    let first = result.try_compute().unwrap();
    assert_eq!(*first, "test");

    // The second call returns the cached value without re-polling the
    // wrapped computation: the already-spent identity would otherwise
    // report exhaustion.
    let second = result.try_compute().unwrap();
    assert_eq!(*second, "test");
    assert!(result.computable_ref().value.is_none());
    assert_eq!(result.result_ref(), Some(&"test".to_string()));
}

#[test]
fn test_computable_result_result() {
    let identity: ComputableIdentity<i32> = 42.into();
    let mut result = ComputableResult::new(identity);
    let _ = result.try_compute().unwrap();

    let value = result.result();
    assert_eq!(value, Some(42));
}

#[test]
fn test_computable_result_result_none() {
    let identity: ComputableIdentity<i32> = 42.into();
    let result = ComputableResult::new(identity);
    let value = result.result();
    assert_eq!(value, None);
}

#[test]
fn test_computable_result_computable_ref() {
    let identity: ComputableIdentity<i32> = 42.into();
    let result = ComputableResult::new(identity);
    let _computable_ref = result.computable_ref();
}

#[test]
fn test_computable_result_computable() {
    let identity: ComputableIdentity<i32> = 42.into();
    let result = ComputableResult::new(identity);
    let mut computable = result.computable();
    let value = computable.try_compute().unwrap();
    assert_eq!(value, 42);
}

#[test]
fn test_compute_method() {
    let mut identity: ComputableIdentity<i32> = 42.into();
    let result = identity.compute().unwrap();
    assert_eq!(result, 42);
}

#[test]
fn test_compute_with_suspensions() {
    let mut computable = SuspendingComputable { count: 0, target: 3 };
    let result = computable.compute().unwrap();
    assert_eq!(result, 3);
}

#[test]
fn test_try_compute_with_suspensions() {
    let mut computable = SuspendingComputable { count: 0, target: 3 };

    // The first call should suspend
    assert_eq!(computable.try_compute(), Err(Incomplete::Suspended));
    // The second call should suspend
    assert_eq!(computable.try_compute(), Err(Incomplete::Suspended));
    // The third call should complete
    assert_eq!(computable.try_compute(), Ok(3));
}

#[test]
fn test_computable_identity_from() {
    let identity: ComputableIdentity<i32> = 42.into();
    let mut identity = identity;
    let result = identity.try_compute().unwrap();
    assert_eq!(result, 42);
}

#[test]
fn test_computable_identity_compute() {
    let mut identity: ComputableIdentity<String> = "hello".to_string().into();
    let result = identity.compute().unwrap();
    assert_eq!(result, "hello");
}

#[test]
fn test_computable_identity_exhausted() {
    let mut identity: ComputableIdentity<i32> = 42.into();
    let _ = identity.try_compute().unwrap();
    // The second call should return Exhausted
    assert_eq!(identity.try_compute(), Err(Incomplete::Exhausted));
}
