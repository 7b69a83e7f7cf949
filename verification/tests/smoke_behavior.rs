use sd_bringup::errors::SmokeTestError;
use sd_bringup::smoke::{
    bytes_equal, copy_bytes, evaluate_smoke, run_smoke, CreateOutcome, SmokeTestResult,
};

#[test]
fn created_and_read_back_equal_is_a_match() {
    let payload = b"Hello, world!".to_vec();
    let result = evaluate_smoke(CreateOutcome::Created, Some(payload.clone()), &payload);
    assert_eq!(result, SmokeTestResult::Match);
}

#[test]
fn created_and_read_back_different_is_a_mismatch() {
    let payload = b"Hello, world!".to_vec();
    let result = evaluate_smoke(CreateOutcome::Created, Some(b"Hello, worle!".to_vec()), &payload);
    assert_eq!(result, SmokeTestResult::Mismatch(b"Hello, worle!".to_vec()));
}

#[test]
fn existing_file_is_reported_read_only_without_comparison() {
    let payload = b"Hello, world!".to_vec();
    let result = evaluate_smoke(CreateOutcome::AlreadyExists, Some(b"old".to_vec()), &payload);
    assert_eq!(result, SmokeTestResult::ReadOnly(b"old".to_vec()));
}

#[test]
fn denied_creation_is_an_io_failure() {
    let payload = b"Hello, world!".to_vec();
    let result = evaluate_smoke(CreateOutcome::Denied, Some(payload.clone()), &payload);
    assert_eq!(result, SmokeTestResult::Failed(SmokeTestError::IoFailure));
}

#[test]
fn unreadable_file_is_an_io_failure() {
    let payload = b"Hello, world!".to_vec();
    let created = evaluate_smoke(CreateOutcome::Created, None, &payload);
    assert_eq!(created, SmokeTestResult::Failed(SmokeTestError::IoFailure));
    let existing = evaluate_smoke(CreateOutcome::AlreadyExists, None, &payload);
    assert_eq!(existing, SmokeTestResult::Failed(SmokeTestError::IoFailure));
}

#[test]
fn byte_comparison_notices_every_difference() {
    assert!(bytes_equal(&vec![], &vec![]));
    assert!(bytes_equal(&vec![1, 2, 3], &vec![1, 2, 3]));
    assert!(!bytes_equal(&vec![1, 2, 3], &vec![1, 2]));
    assert!(!bytes_equal(&vec![1, 2, 3], &vec![1, 2, 4]));
    assert!(!bytes_equal(&vec![], &vec![0]));
}

#[test]
fn copied_bytes_are_the_same_bytes() {
    let src = b"Hello, world!".to_vec();
    assert_eq!(copy_bytes(&src), src);
    let empty: Vec<u8> = vec![];
    assert_eq!(copy_bytes(&empty), empty);
}

#[test]
fn smoke_on_fresh_file_writes_and_matches() {
    let payload = b"Hello, world!".to_vec();
    let (result, file) = run_smoke(false, None, &payload);
    assert_eq!(result, SmokeTestResult::Match);
    assert_eq!(file, Some(payload));
}

#[test]
fn smoke_on_existing_file_reads_without_writing() {
    let payload = b"Hello, world!".to_vec();
    let (result, file) = run_smoke(false, Some(b"old".to_vec()), &payload);
    assert_eq!(result, SmokeTestResult::ReadOnly(b"old".to_vec()));
    assert_eq!(file, Some(b"old".to_vec()));
}

#[test]
fn smoke_on_faulty_device_fails_and_leaves_the_file_alone() {
    let payload = b"Hello, world!".to_vec();
    let (result, file) = run_smoke(true, Some(b"old".to_vec()), &payload);
    assert_eq!(result, SmokeTestResult::Failed(SmokeTestError::IoFailure));
    assert_eq!(file, Some(b"old".to_vec()));
}
