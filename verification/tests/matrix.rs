use pgauthz::matrix::MatrixRunner;

#[test]
fn test_matrix_runner_creation() {
    let runner = MatrixRunner::new(vec!["test.yaml".to_string()]);
    assert_eq!(runner.test_files.len(), 1);
}

#[test]
fn check_times_are_recorded() {
    let mut runner = MatrixRunner::new(vec![]);
    assert!(runner.check_times.is_empty());
    runner.record_check_time("basic".to_string(), "case".to_string(), 12);
    assert_eq!(runner.check_times, vec![("basic".to_string(), "case".to_string(), 12u128)]);
}
