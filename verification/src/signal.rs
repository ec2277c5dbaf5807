//! Wake-up signalling between the send and receive ends of a channel.
//!
//! The message queue of a channel lives behind a verified lock; what that
//! lock cannot provide is a way for the receiver to sleep until something
//! happens. This module supplies it: a "bell" — a `std::sync::mpsc` stream
//! of unit values — rung by senders, listened to by the one receiver. The
//! bell also carries liveness in both directions: ringing fails exactly when
//! the listening end is gone, and listening reports when every ringing end
//! has been dropped. The items here are the crate's only trusted boundary;
//! each relies on one documented `std::sync::mpsc` operation.

use vstd::prelude::*;

verus! {

#[verifier::external_type_specification]
#[verifier::external_body]
#[verifier::reject_recursive_types(T)]
pub struct ExMpscSender<T>(std::sync::mpsc::Sender<T>);

#[verifier::external_type_specification]
#[verifier::external_body]
#[verifier::reject_recursive_types(T)]
pub struct ExMpscReceiver<T>(std::sync::mpsc::Receiver<T>);

/// What a non-blocking look at the bell found.
pub enum BellSignal {
    /// A ring was pending: some send end completed work since the last look.
    Rung,
    /// No ring is pending and at least one ringing end is still live.
    Quiet,
    /// Every ringing end has been dropped and no ring is pending.
    Gone,
}

/// Relies on `std::sync::mpsc::channel`: returns the ringing and listening
/// ends of a fresh bell, connected to each other and to nothing else.
#[verifier::external_body]
pub(crate) fn bell_pair() -> (bell: (std::sync::mpsc::Sender<()>, std::sync::mpsc::Receiver<()>))
{
    std::sync::mpsc::channel()
}

/// Relies on `std::sync::mpsc::Sender::send`: never blocks, and returns
/// `Ok` exactly when the listening end was still live at the time of the
/// call. The unit value queues as one pending ring.
#[verifier::external_body]
pub(crate) fn bell_ring(bell: &std::sync::mpsc::Sender<()>) -> (delivered: bool) {
    bell.send(()).is_ok()
}

/// Relies on `std::sync::mpsc::Receiver::recv`: blocks the calling thread
/// until a ring is pending (and consumes it) or every ringing end has been
/// dropped; returns nothing either way.
#[verifier::external_body]
pub(crate) fn bell_wait(bell: &std::sync::mpsc::Receiver<()>) {
    let _ = bell.recv();
}

/// Relies on `std::sync::mpsc::Receiver::try_recv`: never blocks; consumes
/// and reports one pending ring if there is one, and otherwise tells whether
/// any ringing end is still live. Pending rings are always reported before
/// `Gone`.
#[verifier::external_body]
pub(crate) fn bell_poll(bell: &std::sync::mpsc::Receiver<()>) -> (signal: BellSignal) {
    match bell.try_recv() {
        Ok(unit) => {
            let () = unit;
            BellSignal::Rung
        },
        Err(std::sync::mpsc::TryRecvError::Empty) => BellSignal::Quiet,
        Err(std::sync::mpsc::TryRecvError::Disconnected) => BellSignal::Gone,
    }
}

/// Relies on `std::sync::mpsc::Sender::clone`: returns one more independent
/// ringing end of the same bell.
#[verifier::external_body]
pub(crate) fn bell_share(bell: &std::sync::mpsc::Sender<()>) -> (copy: std::sync::mpsc::Sender<()>) {
    bell.clone()
}

} // verus!
