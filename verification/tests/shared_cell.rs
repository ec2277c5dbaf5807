use taskmsg::cell::SharedCell;
use taskmsg::task::{join, spawn};

#[test]
fn new_cell_holds_initial_value() {
    let cell = SharedCell::new(4u64);
    assert_eq!(cell.get(), 4);
}

#[test]
fn lock_then_unlock_mutates_in_place() {
    let cell = SharedCell::new(4u64);
    let (value, guard) = cell.lock();
    assert_eq!(value, 4);
    guard.unlock(8);
    assert_eq!(cell.get(), 8);
}

#[test]
fn clones_share_one_underlying_value() {
    let cell = SharedCell::new(0u64);
    let other = cell.clone();
    cell.set(5);
    assert_eq!(other.get(), 5);
    other.set(9);
    assert_eq!(cell.get(), 9);
}

#[test]
fn replace_returns_previous_value() {
    let cell = SharedCell::new(3u64);
    assert_eq!(cell.replace(10), 3);
    assert_eq!(cell.get(), 10);
}

#[test]
fn counter_reads_exactly_task_count() {
    let cell = SharedCell::new(0u64);
    let mut handles = Vec::new();
    for _ in 0..10 {
        let counter = cell.clone();
        handles.push(spawn(move || {
            counter.increment();
            0u8
        }));
    }
    for handle in handles {
        assert!(join(handle).is_ok());
    }
    assert_eq!(cell.get(), 10);
}

#[test]
fn counter_via_lock_and_unlock() {
    let cell = SharedCell::new(0u64);
    let mut handles = Vec::new();
    for _ in 0..10 {
        let counter = cell.clone();
        handles.push(spawn(move || {
            let (value, guard) = counter.lock();
            guard.unlock(value + 1);
            0u8
        }));
    }
    for handle in handles {
        assert!(join(handle).is_ok());
    }
    assert_eq!(cell.get(), 10);
}

#[test]
fn counter_survives_contention() {
    let cell = SharedCell::new(0u64);
    let mut handles = Vec::new();
    for _ in 0..4 {
        let counter = cell.clone();
        handles.push(spawn(move || {
            for _ in 0..250 {
                counter.increment();
            }
            0u8
        }));
    }
    for handle in handles {
        assert!(join(handle).is_ok());
    }
    assert_eq!(cell.get(), 1000);
}

#[test]
fn sequential_increments_add_up() {
    let cell = SharedCell::new(0u64);
    for _ in 0..100 {
        cell.increment();
    }
    assert_eq!(cell.get(), 100);
}

#[test]
fn increment_saturates_at_the_top() {
    let cell = SharedCell::new(u64::MAX);
    cell.increment();
    assert_eq!(cell.get(), u64::MAX);
}

#[test]
fn cell_of_non_copy_values() {
    let cell = SharedCell::new(String::from("start"));
    let (value, guard) = cell.lock();
    assert_eq!(value, "start");
    guard.unlock(String::from("finish"));
    assert_eq!(cell.replace(String::new()), "finish");
}
