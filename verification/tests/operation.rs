use cql_stress::operation::AttemptStart;
use cql_stress::operation::ReadOperation;
use cql_stress::row::RowGeneratorFactory;

/// Distributes a bound of `max_operations` over `workers` operations that
/// take turns claiming successive sequence indices, and counts how many
/// attempts actually execute.
fn executed_attempts(max_operations: u64, workers: usize) -> u64 {
    let factory = RowGeneratorFactory::new(None);
    let mut operations: Vec<ReadOperation> = (0..workers)
        .map(|_| ReadOperation::new(factory.create(), Some(max_operations)))
        .collect();
    let mut executed = 0u64;
    let mut stopped = 0usize;
    let mut operation_id = 0u64;
    while stopped < operations.len() {
        let worker = (operation_id as usize) % operations.len();
        match operations[worker].start_attempt(operation_id) {
            AttemptStart::Execute(row) => {
                assert_eq!(row.len(), 6);
                executed += 1;
            }
            AttemptStart::Stop => {
                stopped += 1;
            }
        }
        operation_id += 1;
    }
    executed
}

#[test]
fn bound_is_exact_for_one_worker() {
    assert_eq!(executed_attempts(7, 1), 7);
}

#[test]
fn bound_is_exact_across_workers() {
    assert_eq!(executed_attempts(7, 3), 7);
    assert_eq!(executed_attempts(100, 16), 100);
    assert_eq!(executed_attempts(1, 4), 1);
}

#[test]
fn stop_comes_exactly_at_the_bound() {
    let factory = RowGeneratorFactory::new(Some(10));
    let mut operation = ReadOperation::new(factory.create(), Some(10));
    assert!(matches!(operation.start_attempt(9), AttemptStart::Execute(_)));
    assert!(matches!(operation.start_attempt(10), AttemptStart::Stop));
    assert!(matches!(operation.start_attempt(11), AttemptStart::Stop));
}

#[test]
fn unbounded_operation_continues() {
    let factory = RowGeneratorFactory::new(None);
    let mut operation = ReadOperation::new(factory.create(), None);
    for id in 0..50u64 {
        assert!(matches!(operation.start_attempt(id), AttemptStart::Execute(_)));
    }
}
