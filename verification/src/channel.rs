//! An ordered, closable message queue with many senders and one receiver.
//!
//! [`create`] returns one [`Sender`] and one [`Receiver`] of a fresh, open
//! channel. Send ends are cloned freely and moved into concurrently running
//! tasks; messages sent by any one sender reach the receiver in the order
//! that sender sent them. The channel closes irreversibly once every send
//! end has been dropped — no explicit close call exists — after which the
//! receiver still drains what was queued and then sees end-of-stream.
//!
//! A channel can carry a message invariant, fixed at creation
//! ([`create_with_invariant`]): every send requires it of its message, and
//! everything the receiver ever takes out is entitled to it, whatever the
//! interleaving of the tasks holding send ends. A channel made with
//! [`create`] accepts every message of its type.
//!
//! The queue itself sits behind a verified lock; each operation's step on
//! the queue is verified exactly ([`take_front`] and the push in
//! [`Sender::send`]). Which of its possible outcomes a concurrent caller
//! observes also depends on the timing of other tasks, which no contract
//! can pin down; the idealized one-step-at-a-time behaviour is stated and
//! proved over the model in [`crate::model`].

use vstd::prelude::*;
use vstd::rwlock::RwLock;
use vstd::rwlock::RwLockPredicate;
use std::sync::Arc;
use crate::signal::BellSignal;
use crate::signal::bell_pair;
use crate::signal::bell_poll;
use crate::signal::bell_ring;
use crate::signal::bell_share;
use crate::signal::bell_wait;

verus! {

/// The lock predicate of a channel's queue: every queued message satisfies
/// the channel's message invariant, chosen when the channel is created.
#[verifier::reject_recursive_types(T)]
pub struct MessageInvariant<T> {
    /// What each queued message satisfies.
    pub each: spec_fn(T) -> bool,
}

impl<T> RwLockPredicate<Vec<T>> for MessageInvariant<T> {
    open spec fn inv(self, queue: Vec<T>) -> bool {
        forall|i: int| 0 <= i < queue@.len() ==> (self.each)(#[trigger] queue@[i])
    }
}

/// Returned by [`Sender::send`] when the receive end is gone: the message
/// inside could never be read, so it is handed back to the caller.
#[derive(Debug)]
pub struct SendError<T>(pub T);

/// The end-of-stream signal of [`Receiver::recv`]: the channel is closed
/// and everything queued has been delivered. Not an error condition.
#[derive(Debug, PartialEq, Eq, Structural)]
pub struct RecvError;

/// What a non-blocking receive found.
#[derive(Debug)]
pub enum TryRecv<T> {
    /// The next queued message, in FIFO order.
    Message(T),
    /// Nothing is queued right now, but at least one send end is live.
    Empty,
    /// Nothing is queued and every send end has been dropped: end of stream.
    Disconnected,
}

/// A send end of a channel. Clone it to give more tasks a way in; the
/// channel closes once every clone has been dropped.
#[verifier::reject_recursive_types(T)]
pub struct Sender<T> {
    queue: Arc<RwLock<Vec<T>, MessageInvariant<T>>>,
    bell: std::sync::mpsc::Sender<()>,
}

/// The single receive end of a channel.
#[verifier::reject_recursive_types(T)]
pub struct Receiver<T> {
    queue: Arc<RwLock<Vec<T>, MessageInvariant<T>>>,
    bell: std::sync::mpsc::Receiver<()>,
}

/// Relies on `Arc::clone`: the returned handle refers to the same shared
/// allocation as `queue`, so as a value it is equal to it; only the
/// ownership count grows.
#[verifier::external_body]
fn share_queue<T>(queue: &Arc<RwLock<Vec<T>, MessageInvariant<T>>>) -> (shared: Arc<
    RwLock<Vec<T>, MessageInvariant<T>>,
>)
    ensures
        shared == *queue,
{
    queue.clone()
}

/// Removes and returns the front of `queue`, the element that has waited
/// longest, shifting the rest forward; `None` exactly when `queue` is empty.
pub fn take_front<T>(queue: &mut Vec<T>) -> (popped: Option<T>)
    ensures
        old(queue)@.len() == 0 ==> popped is None && final(queue)@ == old(queue)@,
        old(queue)@.len() > 0 ==> popped == Some(old(queue)@[0]) && final(queue)@ == old(
            queue,
        )@.subrange(1, old(queue)@.len() as int),
{
    if queue.len() > 0 {
        Some(queue.remove(0))
    } else {
        None
    }
}

/// Returns the ends of a new open channel whose messages must satisfy
/// `inv`: every send requires it of its message, and everything the
/// receiver takes out is entitled to it. The send end feeds exactly that
/// receiver. O(1); the queue grows on demand.
pub fn create_with_invariant<T>(Ghost(inv): Ghost<spec_fn(T) -> bool>) -> (ends: (
    Sender<T>,
    Receiver<T>,
))
    ensures
        ends.0.feeds(ends.1),
        forall|m: T| #[trigger] ends.0.inv(m) == inv(m),
        forall|m: T| #[trigger] ends.1.inv(m) == inv(m),
{
    let queue: Arc<RwLock<Vec<T>, MessageInvariant<T>>> = Arc::new(
        RwLock::new(Vec::new(), Ghost(MessageInvariant { each: inv })),
    );
    let (ring, listen) = bell_pair();
    let sender = Sender { queue: share_queue(&queue), bell: ring };
    let receiver = Receiver { queue, bell: listen };
    (sender, receiver)
}

/// Returns the send end and the receive end of a new open channel with an
/// empty queue: the send end feeds exactly that receiver, and any message
/// of the element type may be sent. O(1); the queue grows on demand.
pub fn create<T>() -> (ends: (Sender<T>, Receiver<T>))
    ensures
        ends.0.feeds(ends.1),
        forall|m: T| #[trigger] ends.0.inv(m),
        forall|m: T| #[trigger] ends.1.inv(m),
{
    create_with_invariant(Ghost(|m: T| true))
}

impl<T> Sender<T> {
    /// The channel's message invariant: what every message sent through
    /// this end must satisfy.
    pub closed spec fn inv(self, message: T) -> bool {
        ((*self.queue).pred().each)(message)
    }

    /// Whether this send end feeds `receiver`: the two share one queue, so
    /// what this end enqueues is what that receiver drains, under one
    /// message invariant. The wake-up bell ends are opaque to contracts,
    /// so their pairing is not part of this statement.
    pub closed spec fn feeds(self, receiver: Receiver<T>) -> bool {
        self.queue == receiver.queue
    }

    /// Whether this send end and `other` are ends of one channel: they
    /// share one queue.
    pub closed spec fn same_channel_as(self, other: Sender<T>) -> bool {
        self.queue == other.queue
    }

    /// Enqueues `message` behind everything this channel already holds.
    /// Never blocks: the queue is unbounded. Fails exactly when the receive
    /// end has already been dropped, in which case nobody could ever read
    /// the message and it is handed back inside the error.
    pub fn send(&self, message: T) -> (outcome: Result<(), SendError<T>>)
        requires
            self.inv(message),
        ensures
            outcome matches Err(e) ==> e.0 == message,
    {
        if !bell_ring(&self.bell) {
            return Err(SendError(message));
        }
        let (mut queue, guard) = self.queue.acquire_write();
        let ghost before = queue@;
        queue.push(message);
        proof {
            assert forall|i: int| 0 <= i < queue@.len() implies ((*self.queue).pred().each)(
                #[trigger] queue@[i],
            ) by {
                if i < before.len() {
                    assert(queue@[i] == before[i]);
                } else {
                    assert(queue@[i] == message);
                }
            }
        }
        guard.release_write(queue);
        let _ = bell_ring(&self.bell);
        Ok(())
    }
}

impl<T> Clone for Sender<T> {
    /// Returns one more independent send end of the same channel: the copy
    /// enqueues into the same queue this end does, under the same message
    /// invariant. Never blocks; the message type need not be clonable.
    fn clone(&self) -> (copy: Sender<T>)
        ensures
            copy.same_channel_as(*self),
            forall|m: T| #[trigger] copy.inv(m) == self.inv(m),
    {
        Sender { queue: share_queue(&self.queue), bell: bell_share(&self.bell) }
    }
}

impl<T> Receiver<T> {
    /// The channel's message invariant: what everything received through
    /// this end satisfies.
    pub closed spec fn inv(self, message: T) -> bool {
        ((*self.queue).pred().each)(message)
    }

    /// Takes the front of the queue under the verified lock.
    fn pop_queued(&self) -> (popped: Option<T>)
        ensures
            popped matches Some(m) ==> self.inv(m),
    {
        let (mut queue, guard) = self.queue.acquire_write();
        let ghost before = queue@;
        let popped = take_front(&mut queue);
        proof {
            assert forall|i: int| 0 <= i < queue@.len() implies ((*self.queue).pred().each)(
                #[trigger] queue@[i],
            ) by {
                if before.len() > 0 {
                    assert(queue@[i] == before[i + 1]);
                }
            }
        }
        guard.release_write(queue);
        popped
    }

    /// Non-blocking receive: the next message in FIFO order if one is
    /// queued — entitled to the channel's message invariant — otherwise
    /// [`TryRecv::Empty`] while any send end is live and
    /// [`TryRecv::Disconnected`] once the channel is closed and drained.
    /// Returns without waiting for senders in every case: each turn of the
    /// loop below consumes a pending ring of the bell, and rings only ever
    /// come from completed sender work, so the loop stops at once when the
    /// bell is quiet and its turn budget outlasts any feasible backlog.
    pub fn try_recv(&self) -> (outcome: TryRecv<T>)
        ensures
            outcome matches TryRecv::Message(m) ==> self.inv(m),
    {
        let mut budget: u64 = u64::MAX;
        while budget > 0
            decreases budget,
        {
            if let Some(message) = self.pop_queued() {
                return TryRecv::Message(message);
            }
            match bell_poll(&self.bell) {
                BellSignal::Rung => {
                    // A sender finished work between the two looks; the
                    // queue may hold its message now, so look again.
                },
                BellSignal::Quiet => {
                    return TryRecv::Empty;
                },
                BellSignal::Gone => {
                    // Every sender is gone, so whatever was queued before
                    // the last one left is all there will ever be.
                    return match self.pop_queued() {
                        Some(message) => TryRecv::Message(message),
                        None => TryRecv::Disconnected,
                    };
                },
            }
            budget = budget - 1;
        }
        TryRecv::Empty
    }

    /// Blocking receive: waits until a message is available and returns the
    /// next one in FIFO order — entitled to the channel's message
    /// invariant — or signals end-of-stream with [`RecvError`] once the
    /// channel is closed and drained. Between looks the calling thread
    /// sleeps on the channel's bell rather than spinning, and each turn of
    /// the loop consumes one wake event produced by sender-side work, so
    /// the loop's turn budget outlasts any feasible execution.
    pub fn recv(&self) -> (outcome: Result<T, RecvError>)
        ensures
            outcome matches Ok(m) ==> self.inv(m),
    {
        let mut budget: u64 = u64::MAX;
        while budget > 0
            decreases budget,
        {
            match self.try_recv() {
                TryRecv::Message(message) => {
                    return Ok(message);
                },
                TryRecv::Disconnected => {
                    return Err(RecvError);
                },
                TryRecv::Empty => {
                    bell_wait(&self.bell);
                },
            }
            budget = budget - 1;
        }
        Err(RecvError)
    }

    /// Receives until end-of-stream and returns everything in arrival
    /// order, each message entitled to the channel's invariant: the
    /// iteration form of [`Receiver::recv`]. Blocks until every send end
    /// has been dropped and the queue is drained; the sequence is not
    /// restartable, since the channel cannot reopen.
    pub fn recv_all(&self) -> (received: Vec<T>)
        ensures
            forall|i: int| 0 <= i < received@.len() ==> self.inv(#[trigger] received@[i]),
    {
        let mut received: Vec<T> = Vec::new();
        let mut budget: u64 = u64::MAX;
        while budget > 0
            invariant
                forall|i: int| 0 <= i < received@.len() ==> self.inv(#[trigger] received@[i]),
            decreases budget,
        {
            match self.recv() {
                Ok(message) => {
                    received.push(message);
                },
                Err(_) => {
                    return received;
                },
            }
            budget = budget - 1;
        }
        received
    }
}

} // verus!
