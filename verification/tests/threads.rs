use workshop::cells::{CollectionCell, CounterCell, ReadOnlyCell};
use workshop::errors::DemoError;
use workshop::joiner::{join_all, join_report, WorkerOutcome};
use workshop::lock::{LockModel, LockState};
use workshop::schedule::{run_collection_round, run_counter_round};

#[test]
fn counter_cell_steps_by_one() {
    let mut cell = CounterCell::new();
    assert_eq!(cell.value(), 0);
    cell.increment();
    cell.increment();
    assert_eq!(cell.value(), 2);
}

#[test]
fn counter_round_of_ten_ends_at_exactly_ten() {
    let mut cell = CounterCell::new();
    let order: Vec<u64> = vec![3, 1, 4, 0, 9, 2, 6, 5, 8, 7];
    run_counter_round(&mut cell, &order);
    assert_eq!(cell.value(), 10);
}

#[test]
fn counter_round_is_order_independent() {
    let orders: [Vec<u64>; 3] = [
        vec![0, 1, 2, 3, 4, 5, 6, 7, 8, 9],
        vec![9, 8, 7, 6, 5, 4, 3, 2, 1, 0],
        vec![5, 0, 9, 1, 8, 2, 7, 3, 6, 4],
    ];
    for order in orders.iter() {
        let mut cell = CounterCell::new();
        run_counter_round(&mut cell, order);
        assert_eq!(cell.value(), 10);
    }
}

#[test]
fn collection_cell_appends_at_the_end() {
    let mut cell = CollectionCell::new();
    cell.append(7);
    cell.append(3);
    assert_eq!(cell.len(), 2);
    assert_eq!(cell.get(0), 7);
    assert_eq!(cell.get(1), 3);
}

#[test]
fn collection_round_holds_each_index_exactly_once() {
    let mut cell = CollectionCell::new();
    let order: Vec<u64> = vec![3, 1, 4, 0, 9, 2, 6, 5, 8, 7];
    run_collection_round(&mut cell, &order);
    assert_eq!(cell.len(), 10);
    // The arrangement is the acquisition order itself.
    for (k, expected) in order.iter().enumerate() {
        assert_eq!(cell.get(k), *expected);
    }
    // Viewed as a set: each index below ten, exactly once.
    for wanted in 0u64..10 {
        let mut count: usize = 0;
        for k in 0..cell.len() {
            if cell.get(k) == wanted {
                count += 1;
            }
        }
        assert_eq!(count, 1);
    }
}

#[test]
fn read_only_cell_reports_the_constructed_value() {
    let cell = ReadOnlyCell::new(42);
    let mut reads: Vec<u64> = Vec::new();
    for _ in 0..10 {
        reads.push(cell.get());
    }
    for value in reads {
        assert_eq!(value, 42);
    }
    assert_eq!(cell.get(), 42);
}

#[test]
fn join_counts_every_completed_worker() {
    let outcomes: Vec<WorkerOutcome> = vec![WorkerOutcome::Completed; 10];
    let summary = join_all(&outcomes);
    assert_eq!(summary.joined, 10);
    assert_eq!(summary.completed, 10);
    assert_eq!(summary.first_failure, None);
    assert_eq!(join_report(&summary), Ok(10));
}

#[test]
fn join_reports_the_first_failed_worker() {
    let outcomes: Vec<WorkerOutcome> = vec![
        WorkerOutcome::Completed,
        WorkerOutcome::Completed,
        WorkerOutcome::Failed,
        WorkerOutcome::Completed,
        WorkerOutcome::Failed,
    ];
    let summary = join_all(&outcomes);
    assert_eq!(summary.joined, 5);
    assert_eq!(summary.completed, 3);
    assert_eq!(summary.first_failure, Some(2));
    assert_eq!(
        join_report(&summary),
        Err(DemoError::WorkerFailed { index: 2 })
    );
}

#[test]
fn join_of_no_handles_is_empty() {
    let outcomes: Vec<WorkerOutcome> = Vec::new();
    let summary = join_all(&outcomes);
    assert_eq!(summary.joined, 0);
    assert_eq!(summary.completed, 0);
    assert_eq!(summary.first_failure, None);
}

#[test]
fn poisoned_lock_surfaces_a_defined_error() {
    let mut lock = LockModel::new();
    assert_eq!(lock.state, LockState::Unlocked);
    assert_eq!(lock.acquire(), Ok(()));
    assert_eq!(lock.state, LockState::Held);
    // The holder terminates abnormally while holding the lock.
    lock.fail_while_held();
    assert_eq!(lock.state, LockState::Poisoned);
    // The next acquisition neither deadlocks nor proceeds silently.
    assert_eq!(lock.acquire(), Err(DemoError::LockPoisoned));
    assert_eq!(lock.state, LockState::Poisoned);
}

#[test]
fn released_lock_can_be_acquired_again() {
    let mut lock = LockModel::new();
    assert_eq!(lock.acquire(), Ok(()));
    lock.release();
    assert_eq!(lock.state, LockState::Unlocked);
    assert_eq!(lock.acquire(), Ok(()));
}

#[test]
fn error_descriptions() {
    assert_eq!(
        DemoError::InputStreamClosed.describe(),
        "input stream closed"
    );
    assert_eq!(
        DemoError::WorkerFailed { index: 4 }.describe(),
        "a worker terminated abnormally"
    );
    assert_eq!(
        DemoError::LockPoisoned.describe(),
        "lock poisoned by a failed worker"
    );
}
