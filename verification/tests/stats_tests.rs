use s3_load_gen::stats::{aggregate, OperationOutcome};

#[test]
fn operations_are_successes_plus_errors() {
    let outcomes = vec![
        OperationOutcome::Success { amount: 100, latency_micros: 1500 },
        OperationOutcome::Failure { latency_micros: 900 },
        OperationOutcome::Success { amount: 250, latency_micros: 2500 },
        OperationOutcome::Failure { latency_micros: 100 },
        OperationOutcome::Failure { latency_micros: 200 },
    ];
    let stats = aggregate(&outcomes, 1_000_000);
    assert_eq!(stats.operations, 5);
    assert_eq!(stats.successes, 2);
    assert_eq!(stats.errors, 3);
    assert_eq!(stats.operations, stats.successes + stats.errors);
    assert_eq!(stats.total_amount, 350);
    assert_eq!(stats.total_latency_micros, 4000);
    assert_eq!(stats.duration_micros, 1_000_000);
}

#[test]
fn zero_successes_report_zero_average_latency() {
    let outcomes = vec![
        OperationOutcome::Failure { latency_micros: 700 },
        OperationOutcome::Failure { latency_micros: 800 },
    ];
    let stats = aggregate(&outcomes, 2_000_000);
    assert_eq!(stats.successes, 0);
    assert_eq!(stats.errors, 2);
    assert_eq!(stats.average_latency_micros(), 0);
}

#[test]
fn an_empty_run_still_has_a_summary() {
    let stats = aggregate(&Vec::new(), 0);
    assert_eq!(stats.operations, 0);
    assert_eq!(stats.successes, 0);
    assert_eq!(stats.errors, 0);
    assert_eq!(stats.average_latency_micros(), 0);
    assert_eq!(stats.average_amount_per_operation(), 0);
}

#[test]
fn average_latency_excludes_failed_operations() {
    let outcomes = vec![
        OperationOutcome::Success { amount: 10, latency_micros: 1000 },
        OperationOutcome::Success { amount: 10, latency_micros: 3000 },
        OperationOutcome::Failure { latency_micros: 999_999 },
    ];
    let stats = aggregate(&outcomes, 5_000_000);
    assert_eq!(stats.average_latency_micros(), 2000);
}

#[test]
fn items_per_operation_for_a_list_run() {
    let outcomes = vec![
        OperationOutcome::Success { amount: 1250, latency_micros: 100 },
        OperationOutcome::Success { amount: 1250, latency_micros: 100 },
    ];
    let stats = aggregate(&outcomes, 1_000_000);
    assert_eq!(stats.average_amount_per_operation(), 1250);
}

#[test]
fn amount_total_saturates_instead_of_wrapping() {
    let outcomes = vec![
        OperationOutcome::Success { amount: u64::MAX - 5, latency_micros: 1 },
        OperationOutcome::Success { amount: 100, latency_micros: 1 },
    ];
    let stats = aggregate(&outcomes, 1);
    assert_eq!(stats.total_amount, u64::MAX);
    assert_eq!(stats.total_latency_micros, 2);
}

#[test]
fn an_all_success_run_has_no_errors() {
    let outcomes = vec![
        OperationOutcome::Success { amount: 1024, latency_micros: 10 },
        OperationOutcome::Success { amount: 1024, latency_micros: 20 },
        OperationOutcome::Success { amount: 1024, latency_micros: 30 },
    ];
    let stats = aggregate(&outcomes, 1_000_000);
    assert_eq!(stats.errors, 0);
    assert_eq!(stats.total_amount, 3072);
    assert_eq!(stats.average_latency_micros(), 20);
}
