use taskmsg::task::{join, run_task, spawn, JoinError};
use taskmsg::channel::create;

#[test]
fn join_returns_spawns_result() {
    let handle = spawn(move || 6 * 7);
    let outcome = join(handle);
    assert!(matches!(outcome, Ok(42)));
}

#[test]
fn run_task_returns_pure_function_of_input() {
    let x: u64 = 21;
    let outcome = run_task(move || x * 2);
    assert!(matches!(outcome, Ok(42)));
}

#[test]
fn join_yields_the_spawned_sum() {
    let x: u64 = 40;
    let y: u64 = 2;
    let handle = spawn(move || x + y);
    assert_eq!(join(handle), Ok(42));
}

#[test]
fn join_surfaces_task_failure() {
    let handle = spawn(move || -> u64 { panic!("abnormal termination inside the task") });
    let outcome = join(handle);
    assert_eq!(outcome, Err(JoinError));
}

#[test]
fn spawn_moves_captured_ownership() {
    let name = String::from("Rust");
    let handle = spawn(move || name.len());
    let outcome = join(handle);
    assert!(matches!(outcome, Ok(4)));
}

#[test]
fn detached_task_still_runs_to_completion() {
    let (tx, rx) = create();
    let handle = spawn(move || {
        assert!(tx.send(42u64).is_ok());
        0u8
    });
    // Dropping the handle detaches the task and hands control straight
    // back; the task's own result is discarded, but its side effect on the
    // channel still arrives.
    drop(handle);
    assert_eq!(rx.recv(), Ok(42));
}

#[test]
fn tasks_run_independently() {
    let first = spawn(move || 1u64);
    let second = spawn(move || 2u64);
    let one = join(first);
    let two = join(second);
    assert!(matches!(one, Ok(1)));
    assert!(matches!(two, Ok(2)));
}
