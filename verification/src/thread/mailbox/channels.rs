//! Bounded channels of message ids from `flume` and from `tokio::sync::mpsc`.
//!
//! A mailbox owns both ends of its channel and never hands either out, so no
//! other sender or receiver takes part: the contracts below describe the
//! channel as seen by that single owner.

use vstd::prelude::*;

verus! {

/// Declares `flume::Sender`.
#[verifier::external_type_specification]
#[verifier::external_body]
#[verifier::reject_recursive_types(T)]
pub struct ExFlumeSender<T>(flume::Sender<T>);

/// Declares `flume::Receiver`.
#[verifier::external_type_specification]
#[verifier::external_body]
#[verifier::reject_recursive_types(T)]
pub struct ExFlumeReceiver<T>(flume::Receiver<T>);

/// The message ids queued in a flume channel, oldest first (seen from its receiver).
pub uninterp spec fn flume_queue(rx: flume::Receiver<u64>) -> Seq<u64>;

/// The bound a flume channel was created with (seen from its receiver).
pub uninterp spec fn flume_bound(rx: flume::Receiver<u64>) -> nat;

/// Whether the sender feeds the queue of the receiver, i.e. both ends were
/// created together by `flume::bounded`.
pub uninterp spec fn flume_linked(tx: flume::Sender<u64>, rx: flume::Receiver<u64>) -> bool;

/// Outcome of a non-blocking send.
pub enum SendAttempt {
    /// The id was queued.
    Sent,
    /// The channel was at its bound; the id was not queued.
    Full,
    /// Every receiver is gone; the id was not queued.
    Disconnected,
}

/// Calls `flume::bounded`: the two ends of a new, empty channel with the given bound.
#[verifier::external_body]
pub(crate) fn flume_bounded(bound: usize) -> (r: (flume::Sender<u64>, flume::Receiver<u64>))
    ensures
        flume_queue(r.1) == Seq::<u64>::empty(),
        flume_bound(r.1) == bound,
        flume_linked(r.0, r.1),
{
    flume::bounded(bound)
}

/// Calls `flume::Sender::try_send` on the sender of the channel whose receiver is
/// `rx`: queues the id when fewer than `bound` ids are queued, and reports
/// `Full` otherwise (a channel of bound 0 is always full).
#[verifier::external_body]
pub(crate) fn flume_try_send(tx: &flume::Sender<u64>, rx: &mut flume::Receiver<u64>, id: u64) -> (r: SendAttempt)
    requires
        flume_linked(*tx, *old(rx)),
    ensures
        flume_linked(*tx, *final(rx)),
        flume_bound(*final(rx)) == flume_bound(*old(rx)),
        flume_queue(*old(rx)).len() < flume_bound(*old(rx)) ==> {
            &&& r is Sent
            &&& flume_queue(*final(rx)) == flume_queue(*old(rx)).push(id)
        },
        flume_queue(*old(rx)).len() >= flume_bound(*old(rx)) ==> {
            &&& r is Full
            &&& flume_queue(*final(rx)) == flume_queue(*old(rx))
        },
{
    let _ = &rx;
    match tx.try_send(id) {
        Ok(()) => SendAttempt::Sent,
        Err(flume::TrySendError::Full(_)) => SendAttempt::Full,
        Err(flume::TrySendError::Disconnected(_)) => SendAttempt::Disconnected,
    }
}

/// Calls `flume::Receiver::try_recv`: removes and returns the oldest id, or
/// `None` when nothing is queued.
#[verifier::external_body]
pub(crate) fn flume_try_recv(rx: &mut flume::Receiver<u64>) -> (r: Option<u64>)
    ensures
        flume_bound(*final(rx)) == flume_bound(*old(rx)),
        forall|tx: flume::Sender<u64>| flume_linked(tx, *old(rx)) ==> flume_linked(tx, *final(rx)),
        flume_queue(*old(rx)).len() == 0 ==> {
            &&& r is None
            &&& flume_queue(*final(rx)) == flume_queue(*old(rx))
        },
        flume_queue(*old(rx)).len() > 0 ==> {
            &&& r == Some(flume_queue(*old(rx))[0])
            &&& flume_queue(*final(rx)) == flume_queue(*old(rx)).drop_first()
        },
{
    rx.try_recv().ok()
}

/// Calls `flume::Receiver::len`: the number of queued ids.
#[verifier::external_body]
pub(crate) fn flume_len(rx: &flume::Receiver<u64>) -> (n: usize)
    ensures
        n == flume_queue(*rx).len(),
{
    rx.len()
}

/// Calls `flume::Receiver::is_empty`: whether no id is queued.
#[verifier::external_body]
pub(crate) fn flume_is_empty(rx: &flume::Receiver<u64>) -> (b: bool)
    ensures
        b == (flume_queue(*rx).len() == 0),
{
    rx.is_empty()
}

/// Declares `tokio::sync::mpsc::Sender`.
#[verifier::external_type_specification]
#[verifier::external_body]
#[verifier::reject_recursive_types(T)]
pub struct ExTokioSender<T>(tokio::sync::mpsc::Sender<T>);

/// Declares `tokio::sync::mpsc::Receiver`.
#[verifier::external_type_specification]
#[verifier::external_body]
#[verifier::reject_recursive_types(T)]
pub struct ExTokioReceiver<T>(tokio::sync::mpsc::Receiver<T>);

/// The message ids queued in a tokio bounded channel, oldest first (seen from its receiver).
pub uninterp spec fn tokio_queue(rx: tokio::sync::mpsc::Receiver<u64>) -> Seq<u64>;

/// The buffer size a tokio bounded channel was created with (seen from its receiver).
pub uninterp spec fn tokio_bound(rx: tokio::sync::mpsc::Receiver<u64>) -> nat;

/// Whether the sender feeds the queue of the receiver, i.e. both ends were
/// created together by `tokio::sync::mpsc::channel`.
pub uninterp spec fn tokio_linked(tx: tokio::sync::mpsc::Sender<u64>, rx: tokio::sync::mpsc::Receiver<u64>) -> bool;

/// The largest buffer tokio accepts for a bounded channel: its semaphore holds
/// at most `usize::MAX >> 3` permits, on 32-bit and 64-bit targets alike.
pub open spec fn tokio_max_buffer() -> nat {
    (usize::MAX / 8) as nat
}

/// Calls `tokio::sync::mpsc::channel`: the two ends of a new, empty channel.
/// Tokio panics on a zero buffer and on one above `usize::MAX >> 3`, which
/// `requires` leaves out.
#[verifier::external_body]
pub(crate) fn tokio_channel(buffer: usize) -> (r: (tokio::sync::mpsc::Sender<u64>, tokio::sync::mpsc::Receiver<u64>))
    requires
        0 < buffer <= tokio_max_buffer(),
    ensures
        tokio_queue(r.1) == Seq::<u64>::empty(),
        tokio_bound(r.1) == buffer,
        tokio_linked(r.0, r.1),
{
    tokio::sync::mpsc::channel(buffer)
}

/// Calls `tokio::sync::mpsc::Sender::try_send` on the sender of the channel whose
/// receiver is `rx`: queues the id when fewer than `buffer` ids are queued (a
/// permit is free), and reports `Full` otherwise.
#[verifier::external_body]
pub(crate) fn tokio_try_send(
    tx: &tokio::sync::mpsc::Sender<u64>,
    rx: &mut tokio::sync::mpsc::Receiver<u64>,
    id: u64,
) -> (r: SendAttempt)
    requires
        tokio_linked(*tx, *old(rx)),
    ensures
        tokio_linked(*tx, *final(rx)),
        tokio_bound(*final(rx)) == tokio_bound(*old(rx)),
        tokio_queue(*old(rx)).len() < tokio_bound(*old(rx)) ==> {
            &&& r is Sent
            &&& tokio_queue(*final(rx)) == tokio_queue(*old(rx)).push(id)
        },
        tokio_queue(*old(rx)).len() >= tokio_bound(*old(rx)) ==> {
            &&& r is Full
            &&& tokio_queue(*final(rx)) == tokio_queue(*old(rx))
        },
{
    let _ = &rx;
    match tx.try_send(id) {
        Ok(()) => SendAttempt::Sent,
        Err(tokio::sync::mpsc::error::TrySendError::Full(_)) => SendAttempt::Full,
        Err(tokio::sync::mpsc::error::TrySendError::Closed(_)) => SendAttempt::Disconnected,
    }
}

/// Calls `tokio::sync::mpsc::Receiver::try_recv`: removes and returns the oldest
/// id (freeing its permit), or `None` when nothing is queued.
#[verifier::external_body]
pub(crate) fn tokio_try_recv(rx: &mut tokio::sync::mpsc::Receiver<u64>) -> (r: Option<u64>)
    ensures
        tokio_bound(*final(rx)) == tokio_bound(*old(rx)),
        forall|tx: tokio::sync::mpsc::Sender<u64>| tokio_linked(tx, *old(rx)) ==> tokio_linked(tx, *final(rx)),
        tokio_queue(*old(rx)).len() == 0 ==> {
            &&& r is None
            &&& tokio_queue(*final(rx)) == tokio_queue(*old(rx))
        },
        tokio_queue(*old(rx)).len() > 0 ==> {
            &&& r == Some(tokio_queue(*old(rx))[0])
            &&& tokio_queue(*final(rx)) == tokio_queue(*old(rx)).drop_first()
        },
{
    rx.try_recv().ok()
}

} // verus!
