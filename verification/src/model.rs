//! The one-step-at-a-time model of a channel, and its ordering laws.
//!
//! A channel observed between operations is captured by a [`ChannelModel`]:
//! the queued messages in arrival order, the number of live send ends, and
//! whether the receive end is live. [`send_step`] and the poll pair
//! [`poll_outcome`] / [`poll_next`] say what one operation does to such a
//! state; they are exactly the steps that [`crate::channel`] performs under
//! its lock ([`crate::channel::take_front`] is the executable poll step,
//! and [`crate::channel::Sender::send`] performs the push of `send_step`).
//!
//! The proof functions below are the laws of the channel: messages go out
//! in the order one sender sent them; an interleaving of two senders keeps
//! each sender's own order; a closed channel still delivers its backlog
//! and then reports end-of-stream forever; polling an empty open channel
//! says so without taking anything.

use vstd::prelude::*;
use crate::channel::TryRecv;

verus! {

/// Mathematical state of one channel between operations.
pub struct ChannelModel<T> {
    /// Messages enqueued and not yet received, oldest first.
    pub queue: Seq<T>,
    /// How many send ends are live.
    pub senders: nat,
    /// Whether the receive end is live.
    pub receiver_live: bool,
}

/// What one send does: the message joins the back of the queue while the
/// receive end is live; a send on a channel whose receiver is gone is
/// rejected and changes nothing.
pub open spec fn send_step<T>(state: ChannelModel<T>, message: T) -> ChannelModel<T> {
    if state.receiver_live {
        ChannelModel { queue: state.queue.push(message), senders: state.senders, receiver_live: true }
    } else {
        state
    }
}

/// Whether a send is accepted: exactly while the receive end is live.
pub open spec fn send_accepted<T>(state: ChannelModel<T>) -> bool {
    state.receiver_live
}

/// The whole of `messages` sent in order by one sender.
pub open spec fn send_all<T>(state: ChannelModel<T>, messages: Seq<T>) -> ChannelModel<T>
    decreases messages.len(),
{
    if messages.len() == 0 {
        state
    } else {
        send_all(send_step(state, messages[0]), messages.drop_first())
    }
}

/// What one non-blocking receive reports: the oldest queued message in
/// FIFO order; `Empty` when nothing is queued but a sender is live; and
/// `Disconnected` once the queue is drained and every sender is gone.
pub open spec fn poll_outcome<T>(state: ChannelModel<T>) -> TryRecv<T> {
    if state.queue.len() > 0 {
        TryRecv::Message(state.queue[0])
    } else if state.senders > 0 {
        TryRecv::Empty
    } else {
        TryRecv::Disconnected
    }
}

/// The state after one non-blocking receive: taking a message removes the
/// front of the queue; a receive that found nothing changes nothing.
pub open spec fn poll_next<T>(state: ChannelModel<T>) -> ChannelModel<T> {
    if state.queue.len() > 0 {
        ChannelModel {
            queue: state.queue.drop_first(),
            senders: state.senders,
            receiver_live: state.receiver_live,
        }
    } else {
        state
    }
}

/// The messages that `count` successive receives observe, in order, when
/// no send happens in between.
pub open spec fn polled<T>(state: ChannelModel<T>, count: nat) -> Seq<T>
    decreases count,
{
    if count == 0 || state.queue.len() == 0 {
        Seq::empty()
    } else {
        seq![state.queue[0]] + polled(poll_next(state), (count - 1) as nat)
    }
}

/// The state left behind by `count` successive receives.
pub open spec fn after_polls<T>(state: ChannelModel<T>, count: nat) -> ChannelModel<T>
    decreases count,
{
    if count == 0 {
        state
    } else {
        after_polls(poll_next(state), (count - 1) as nat)
    }
}

/// Whether `trace` is an interleaving of `left` and `right`: every element
/// of `trace` comes from exactly one of the two, and each of the two
/// appears in its own order.
pub open spec fn interleaves<T>(trace: Seq<T>, left: Seq<T>, right: Seq<T>) -> bool
    decreases trace.len(),
{
    if trace.len() == 0 {
        left.len() == 0 && right.len() == 0
    } else {
        (left.len() > 0 && left[0] == trace[0] && interleaves(
            trace.drop_first(),
            left.drop_first(),
            right,
        )) || (right.len() > 0 && right[0] == trace[0] && interleaves(
            trace.drop_first(),
            left,
            right.drop_first(),
        ))
    }
}

/// Whether `part` occurs inside `whole` in order, not necessarily
/// contiguously.
pub open spec fn subsequence_of<T>(part: Seq<T>, whole: Seq<T>) -> bool
    decreases whole.len(),
{
    if part.len() == 0 {
        true
    } else if whole.len() == 0 {
        false
    } else {
        (part[0] == whole[0] && subsequence_of(part.drop_first(), whole.drop_first()))
            || subsequence_of(part, whole.drop_first())
    }
}

/// Sending while the receive end is live appends to the queue and touches
/// nothing else: after one sender sends `messages` in order, the queue
/// holds the old backlog and then `messages`, exactly in that order.
pub proof fn lemma_send_all_appends<T>(state: ChannelModel<T>, messages: Seq<T>)
    requires
        state.receiver_live,
    ensures
        send_all(state, messages).queue == state.queue + messages,
        send_all(state, messages).senders == state.senders,
        send_all(state, messages).receiver_live,
    decreases messages.len(),
{
    if messages.len() == 0 {
        assert(state.queue + messages =~= state.queue);
    } else {
        let stepped = send_step(state, messages[0]);
        lemma_send_all_appends(stepped, messages.drop_first());
        assert(stepped.queue + messages.drop_first() =~= state.queue + messages);
    }
}

/// A send on a channel whose receiver is gone is rejected: however many
/// messages are pushed at it, nothing changes.
pub proof fn lemma_send_rejected<T>(state: ChannelModel<T>, messages: Seq<T>)
    requires
        !state.receiver_live,
    ensures
        send_all(state, messages) == state,
    decreases messages.len(),
{
    if messages.len() > 0 {
        lemma_send_rejected(send_step(state, messages[0]), messages.drop_first());
    }
}

/// Receiving drains the queue front-first: `count` successive receives
/// observe exactly the oldest `count` queued messages, in queue order.
pub proof fn lemma_polled_is_prefix<T>(state: ChannelModel<T>, count: nat)
    requires
        count <= state.queue.len(),
    ensures
        polled(state, count) == state.queue.take(count as int),
        after_polls(state, count).queue == state.queue.skip(count as int),
        after_polls(state, count).senders == state.senders,
        after_polls(state, count).receiver_live == state.receiver_live,
    decreases count,
{
    if count == 0 {
        assert(polled(state, 0) =~= state.queue.take(0));
        assert(after_polls(state, 0).queue =~= state.queue.skip(0));
    } else {
        let rest = poll_next(state);
        lemma_polled_is_prefix(rest, (count - 1) as nat);
        assert(seq![state.queue[0]] + rest.queue.take(count - 1) =~= state.queue.take(
            count as int,
        ));
        assert(rest.queue.skip(count - 1) =~= state.queue.skip(count as int));
    }
}

/// FIFO per sender: after a single sender sends `messages` in order on a
/// live channel, draining the whole queue observes the old backlog and
/// then `messages`, in exactly the order they were sent.
pub proof fn lemma_fifo_per_sender<T>(state: ChannelModel<T>, messages: Seq<T>)
    requires
        state.receiver_live,
    ensures
        polled(send_all(state, messages), send_all(state, messages).queue.len()) == state.queue
            + messages,
{
    let filled = send_all(state, messages);
    lemma_send_all_appends(state, messages);
    lemma_polled_is_prefix(filled, filled.queue.len());
    assert(filled.queue.take(filled.queue.len() as int) =~= filled.queue);
}

/// A subsequence of the tail is a subsequence of the whole.
proof fn lemma_subsequence_unshift<T>(part: Seq<T>, whole: Seq<T>)
    requires
        whole.len() > 0,
        subsequence_of(part, whole.drop_first()),
    ensures
        subsequence_of(part, whole),
{
}

/// Whatever occurs in order inside `tail` also occurs in order inside
/// `front + tail`.
proof fn lemma_subsequence_prepend<T>(part: Seq<T>, front: Seq<T>, tail: Seq<T>)
    requires
        subsequence_of(part, tail),
    ensures
        subsequence_of(part, front + tail),
    decreases front.len(),
{
    if front.len() == 0 {
        assert(front + tail =~= tail);
    } else {
        lemma_subsequence_prepend(part, front.drop_first(), tail);
        assert((front + tail).drop_first() =~= front.drop_first() + tail);
        lemma_subsequence_unshift(part, front + tail);
    }
}

/// An interleaving keeps each source's own order: both interleaved
/// sequences occur in order inside the trace.
pub proof fn lemma_interleaving_keeps_order<T>(trace: Seq<T>, left: Seq<T>, right: Seq<T>)
    requires
        interleaves(trace, left, right),
    ensures
        subsequence_of(left, trace),
        subsequence_of(right, trace),
    decreases trace.len(),
{
    if trace.len() > 0 {
        if left.len() > 0 && left[0] == trace[0] && interleaves(
            trace.drop_first(),
            left.drop_first(),
            right,
        ) {
            lemma_interleaving_keeps_order(trace.drop_first(), left.drop_first(), right);
            lemma_subsequence_unshift(right, trace);
        } else {
            lemma_interleaving_keeps_order(trace.drop_first(), left, right.drop_first());
            lemma_subsequence_unshift(left, trace);
        }
    }
}

/// Two senders interleaved: whatever order their sends mixed in, draining
/// the channel observes the backlog and then the interleaved trace, and
/// each sender's own messages stand in it in their sent order.
pub proof fn lemma_multi_sender_order<T>(
    state: ChannelModel<T>,
    trace: Seq<T>,
    left: Seq<T>,
    right: Seq<T>,
)
    requires
        state.receiver_live,
        interleaves(trace, left, right),
    ensures
        polled(send_all(state, trace), send_all(state, trace).queue.len()) == state.queue + trace,
        subsequence_of(left, state.queue + trace),
        subsequence_of(right, state.queue + trace),
{
    lemma_fifo_per_sender(state, trace);
    lemma_interleaving_keeps_order(trace, left, right);
    lemma_subsequence_prepend(left, state.queue, trace);
    lemma_subsequence_prepend(right, state.queue, trace);
}

/// A channel whose last sender is gone still delivers: every message that
/// was queued is observed, in order, and after the queue is drained every
/// further receive reports end-of-stream, forever.
pub proof fn lemma_closed_channel_drains<T>(state: ChannelModel<T>, extra: nat)
    requires
        state.senders == 0,
    ensures
        polled(state, state.queue.len()) == state.queue,
        poll_outcome(after_polls(state, state.queue.len() + extra)) is Disconnected,
        polled(after_polls(state, state.queue.len()), extra) == Seq::<T>::empty(),
{
    lemma_polled_is_prefix(state, state.queue.len());
    assert(state.queue.take(state.queue.len() as int) =~= state.queue);
    let drained = after_polls(state, state.queue.len());
    assert(drained.queue.len() == 0);
    lemma_no_revival(drained, extra);
    lemma_after_polls_add(state, state.queue.len(), extra);
}

/// Once drained and closed, a channel stays that way: further receives
/// observe nothing and leave the state as it is.
proof fn lemma_no_revival<T>(state: ChannelModel<T>, count: nat)
    requires
        state.senders == 0,
        state.queue.len() == 0,
    ensures
        after_polls(state, count) == state,
        polled(state, count) == Seq::<T>::empty(),
        poll_outcome(state) is Disconnected,
    decreases count,
{
    if count > 0 {
        lemma_no_revival(state, (count - 1) as nat);
    }
}

/// Successive receives compose: draining in two goes is draining once.
proof fn lemma_after_polls_add<T>(state: ChannelModel<T>, first: nat, second: nat)
    ensures
        after_polls(after_polls(state, first), second) == after_polls(state, first + second),
    decreases first,
{
    if first > 0 {
        lemma_after_polls_add(poll_next(state), (first - 1) as nat, second);
    }
}

/// A non-blocking receive on an empty channel that is still open reports
/// that nothing is ready, takes nothing, and changes nothing.
pub proof fn lemma_poll_empty_is_harmless<T>(state: ChannelModel<T>)
    ensures
        poll_outcome(state) is Empty <==> (state.queue.len() == 0 && state.senders > 0),
        state.queue.len() == 0 ==> poll_next(state) == state,
{
}

} // verus!
