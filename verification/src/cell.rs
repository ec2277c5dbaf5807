//! A reference-counted, heap-resident value guarded by mutual exclusion.
//!
//! A [`SharedCell`] is created with an initial value and cloned freely;
//! every clone is a handle to the same underlying value, and the value is
//! dropped only when the last handle is. At most one holder at a time can
//! take the exclusive view: [`SharedCell::lock`] blocks until the value is
//! free and hands it out together with a [`CellGuard`];
//! [`CellGuard::unlock`] stores a value back and releases the exclusion.
//!
//! A cell can carry an invariant, fixed at creation: every value that goes
//! in must satisfy it, and every lock acquisition is then entitled to it —
//! whatever the interleaving of the tasks sharing the cell. A cell made
//! with [`SharedCell::new`] accepts every value of its type.
//!
//! Release is by the explicit [`CellGuard::unlock`], not by scope exit.
//! Critical sections of this crate are verified never to terminate
//! abnormally, so a held lock is always given back through `unlock` and no
//! poisoned state can arise. An *unverified* caller that panics while
//! holding the guard gives nothing back: the lock then stays held forever
//! rather than being marked poisoned, and later holders block.

use vstd::prelude::*;
use vstd::rwlock::RwLock;
use vstd::rwlock::ReadHandle;
use vstd::rwlock::WriteHandle;
use std::sync::Arc;

verus! {

/// A heap-resident value of type `V`, reachable through any number of
/// cloned handles, with access serialized by mutual exclusion.
#[verifier::reject_recursive_types(V)]
pub struct SharedCell<V> {
    lock: Arc<RwLock<V, spec_fn(V) -> bool>>,
}

/// Witness that the holder has the exclusive view of a cell's value.
///
/// The guard is consumed by [`CellGuard::unlock`], which stores a value
/// back and lets the next holder in.
#[verifier::reject_recursive_types(V)]
pub struct CellGuard<'a, V> {
    handle: WriteHandle<'a, V, spec_fn(V) -> bool>,
}

/// Relies on `Arc::clone`: the returned handle refers to the same shared
/// allocation as `lock`, so as a value it is equal to it; only the
/// ownership count grows.
#[verifier::external_body]
fn share_lock<V>(lock: &Arc<RwLock<V, spec_fn(V) -> bool>>) -> (shared: Arc<
    RwLock<V, spec_fn(V) -> bool>,
>)
    ensures
        shared == *lock,
{
    lock.clone()
}

impl<V> SharedCell<V> {
    /// Which values this cell may hold: chosen when the cell is created
    /// and shared by every clone of the handle.
    pub closed spec fn inv(self, value: V) -> bool {
        (*self.lock).inv(value)
    }

    /// Allocates `value` on the heap under the invariant `inv` and returns
    /// the first handle to it, with an ownership count of one. Every value
    /// later stored must satisfy `inv`, and every holder that locks the
    /// cell may in turn rely on it.
    pub fn with_invariant(value: V, Ghost(inv): Ghost<spec_fn(V) -> bool>) -> (cell: SharedCell<
        V,
    >)
        requires
            inv(value),
        ensures
            forall|v: V| #[trigger] cell.inv(v) == inv(v),
    {
        SharedCell { lock: Arc::new(RwLock::new(value, Ghost(inv))) }
    }

    /// Allocates `value` on the heap and returns the first handle to it.
    /// The cell accepts every value of the element type.
    pub fn new(value: V) -> (cell: SharedCell<V>)
        ensures
            forall|v: V| #[trigger] cell.inv(v),
    {
        SharedCell::with_invariant(value, Ghost(|v: V| true))
    }

    /// Blocks the calling thread of control until no other holder has the
    /// value locked, then takes the exclusive view: the current value —
    /// which satisfies the cell's invariant, whatever other holders did —
    /// and the guard that must be used to store a value back.
    ///
    /// Release is by [`CellGuard::unlock`] alone, never by scope exit. A
    /// verified holder always reaches it, since verified code cannot
    /// terminate abnormally; an unverified holder that panics between
    /// `lock` and `unlock` leaves the lock held forever — later holders
    /// block, and no poisoned state exists to observe.
    pub fn lock(&self) -> (view: (V, CellGuard<'_, V>))
        ensures
            self.inv(view.0),
            forall|v: V| #[trigger] view.1.can_store(v) == self.inv(v),
    {
        let (value, handle) = self.lock.acquire_write();
        (value, CellGuard { handle })
    }

    /// Stores `value` into the cell, waiting for exclusive access first.
    pub fn set(&self, value: V)
        requires
            self.inv(value),
    {
        let (_previous, guard) = self.lock();
        guard.unlock(value);
    }

    /// Swaps `value` into the cell and returns what was stored before,
    /// waiting for exclusive access first. What comes out satisfies the
    /// cell's invariant, like everything that was ever stored.
    pub fn replace(&self, value: V) -> (previous: V)
        requires
            self.inv(value),
        ensures
            self.inv(previous),
    {
        let (previous, guard) = self.lock();
        guard.unlock(value);
        previous
    }
}

impl<V: Copy> SharedCell<V> {
    /// Returns a copy of the stored value, waiting until no holder has the
    /// exclusive view. The copy satisfies the cell's invariant.
    pub fn get(&self) -> (value: V)
        ensures
            self.inv(value),
    {
        let read_handle: ReadHandle<'_, V, spec_fn(V) -> bool> = self.lock.acquire_read();
        let value = *read_handle.borrow();
        read_handle.release_read();
        value
    }
}

impl<V> Clone for SharedCell<V> {
    /// Returns a new handle sharing the same underlying value, under the
    /// same invariant. The value itself is not copied; only the ownership
    /// count grows.
    fn clone(&self) -> (copy: SharedCell<V>)
        ensures
            forall|v: V| #[trigger] copy.inv(v) == self.inv(v),
    {
        SharedCell { lock: share_lock(&self.lock) }
    }
}

impl<'a, V> CellGuard<'a, V> {
    /// Which values may be stored through this guard: exactly those the
    /// cell's invariant allows.
    pub closed spec fn can_store(self, value: V) -> bool {
        self.handle.rwlock().inv(value)
    }

    /// Stores `value` as the cell's content and releases the exclusion, so
    /// the next blocked holder can proceed.
    pub fn unlock(self, value: V)
        requires
            self.can_store(value),
    {
        self.handle.release_write(value);
    }
}

/// One increment of a shared counter: adds one, saturating at the top of
/// the range instead of overflowing.
pub open spec fn bumped(value: u64) -> u64 {
    if value < u64::MAX {
        (value + 1) as u64
    } else {
        value
    }
}

/// The counter after `count` increments, each applied to the previous
/// total.
pub open spec fn bumped_times(value: u64, count: nat) -> u64
    decreases count,
{
    if count == 0 {
        value
    } else {
        bumped(bumped_times(value, (count - 1) as nat))
    }
}

/// Counter totals: a counter that starts at zero and is incremented once
/// per task reads exactly the number of tasks, however the increments were
/// ordered — under the cell's mutual exclusion every schedule performs the
/// same increments one at a time, so the total is their count.
pub proof fn lemma_counter_totals(count: nat)
    requires
        count <= u64::MAX,
    ensures
        bumped_times(0u64, count) as nat == count,
    decreases count,
{
    if count > 0 {
        lemma_counter_totals((count - 1) as nat);
    }
}

/// Adds one to `value`, saturating at the top of the range.
pub fn bump(value: u64) -> (next: u64)
    ensures
        next == bumped(value),
{
    if value < u64::MAX {
        value + 1
    } else {
        value
    }
}

impl SharedCell<u64> {
    /// Takes the exclusive view, adds one to the stored counter
    /// (saturating), and releases. The canonical use of a shared cell:
    /// tasks that each increment once leave behind exactly their count.
    /// The cell's invariant must tolerate the increment.
    pub fn increment(&self)
        requires
            forall|v: u64| self.inv(v) ==> #[trigger] self.inv(bumped(v)),
    {
        let (value, guard) = self.lock();
        let next = bump(value);
        guard.unlock(next);
    }
}

} // verus!
