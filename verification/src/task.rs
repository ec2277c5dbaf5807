//! Spawning independent units of work and joining their results.
//!
//! A unit of work is a zero-argument closure. [`spawn`] starts it on a fresh
//! thread of control and hands back a [`TaskHandle`]; [`join`] blocks until
//! the unit has terminated and yields its result, or [`JoinError`] when the
//! unit terminated abnormally. Dropping a handle without joining detaches the
//! task: it still runs to completion, but its outcome is discarded.

use vstd::prelude::*;
use vstd::*;

verus! {

/// An owned token for one in-flight or completed task.
///
/// Joining consumes the handle, so a task can be waited for at most once.
/// Dropping the handle instead detaches the task.
#[verifier::reject_recursive_types(R)]
pub struct TaskHandle<R> {
    inner: thread::JoinHandle<R>,
}

impl<R> TaskHandle<R> {
    /// The possible results of the task behind the handle: exactly the
    /// postcondition of the closure handed to `spawn`.
    pub closed spec fn task_ensures(self, r: R) -> bool {
        self.inner.predicate(r)
    }
}

/// Signals that a joined task terminated abnormally instead of returning a
/// result. The failure is confined to that task; it surfaces only here.
#[derive(Debug, PartialEq, Eq, Structural)]
pub struct JoinError;

/// Starts `work` on a new thread of control and returns immediately.
///
/// Ownership of everything `work` captured moves into the task. The task runs
/// concurrently with the caller, with no ordering guarantee relative to it or
/// to other tasks. Every result the task can hand back over the returned
/// handle satisfies the closure's own postcondition.
pub fn spawn<F, R>(work: F) -> (handle: TaskHandle<R>) where
    F: FnOnce() -> R + Send + 'static,
    R: Send + 'static,

    requires
        work.requires(()),
    ensures
        forall|r: R| #[trigger] handle.task_ensures(r) ==> work.ensures((), r),
{
    TaskHandle { inner: thread::spawn(work) }
}

/// Blocks the calling thread of control until the task behind `handle` has
/// terminated.
///
/// On normal termination the task's result is returned, and it satisfies the
/// spawned closure's postcondition. [`JoinError`] is returned when the task
/// terminated abnormally; the caller decides whether to recover or escalate.
pub fn join<R>(handle: TaskHandle<R>) -> (outcome: Result<R, JoinError>)
    ensures
        outcome matches Ok(r) ==> handle.task_ensures(r),
{
    match handle.inner.join() {
        Ok(r) => Ok(r),
        Err(_) => Err(JoinError),
    }
}

/// Spawns `work` and immediately joins it: every `Ok` result satisfies the
/// closure's own postcondition, so a task that computes a pure function of
/// its captured input yields exactly that function's value.
pub fn run_task<F, R>(work: F) -> (outcome: Result<R, JoinError>) where
    F: FnOnce() -> R + Send + 'static,
    R: Send + 'static,

    requires
        work.requires(()),
    ensures
        outcome matches Ok(r) ==> work.ensures((), r),
{
    let handle = spawn(work);
    join(handle)
}

} // verus!
