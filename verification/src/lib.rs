//! Concurrent task and messaging primitives.
//!
//! Three small building blocks for coordinating independent units of work:
//!
//! - [`task`]: spawn a unit of work on its own thread of control and join
//!   its result — or drop the handle and let it run detached.
//! - [`channel`]: an unbounded FIFO queue with many cloneable send ends and
//!   one receive end, which closes once every send end is gone — and can
//!   carry a message invariant that everything received is entitled to.
//! - [`cell`]: a reference-counted heap value guarded by mutual exclusion,
//!   optionally carrying an invariant that every stored value satisfies.
//!
//! What a concurrent caller observes depends on scheduling, which no
//! contract can pin down; the ordering guarantees the channel gives —
//! FIFO per sender, order preserved under interleaving, delivery of the
//! backlog after closing — are therefore stated and proved as laws over
//! the channel's one-step-at-a-time model in [`model`]. The only trusted
//! boundary is the wake-up bell in [`signal`]; [`summary`] supplies
//! self-describing payloads for messages.

pub mod cell;
pub mod channel;
pub mod model;
pub mod signal;
pub mod summary;
pub mod task;
