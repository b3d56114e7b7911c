//! The bounded mailbox between producers and the aggregator: a bounded
//! multi-producer, single-consumer channel of tokio.

use vstd::prelude::*;
use crate::record::LogObject;

verus! {

/// `tokio::sync::mpsc::Sender`, a sending end of a bounded channel.
#[verifier::external_type_specification]
#[verifier::external_body]
#[verifier::reject_recursive_types(T)]
pub struct ExSender<T>(tokio::sync::mpsc::Sender<T>);

/// `tokio::sync::mpsc::Receiver`, the receiving end of a bounded channel.
#[verifier::external_type_specification]
#[verifier::external_body]
#[verifier::reject_recursive_types(T)]
pub struct ExReceiver<T>(tokio::sync::mpsc::Receiver<T>);

/// The largest capacity a mailbox can be opened with.
pub const MAX_BUFFER_SIZE: usize = usize::MAX / 8;

/// Why the mailbox did not take a record.
#[derive(Clone, Copy, Debug, PartialEq, Eq, Structural)]
pub enum Rejection {
    /// The mailbox holds as many records as it has room for.
    Full,
    /// The receiving end is gone.
    Closed,
}

/// The capacity that the mailbox behind a sending end was opened with.
pub uninterp spec fn mailbox_capacity(sender: tokio::sync::mpsc::Sender<LogObject>) -> nat;

/// The mailbox that a sending end feeds.
pub uninterp spec fn sender_mailbox(sender: tokio::sync::mpsc::Sender<LogObject>) -> nat;

/// The mailbox that a receiving end drains.
pub uninterp spec fn receiver_mailbox(receiver: tokio::sync::mpsc::Receiver<LogObject>) -> nat;

/// Opens a mailbox with room for `capacity` records and gives its two ends.
///
/// Calls `tokio::sync::mpsc::channel`, which panics on a capacity of 0 or
/// above `Semaphore::MAX_PERMITS` (`usize::MAX >> 3`). The capacity stays
/// with the channel for good, and the two ends are those of one channel.
#[verifier::external_body]
pub(crate) fn open_mailbox(capacity: usize) -> (ends: (
    tokio::sync::mpsc::Sender<LogObject>,
    tokio::sync::mpsc::Receiver<LogObject>,
))
    requires
        0 < capacity <= MAX_BUFFER_SIZE,
    ensures
        mailbox_capacity(ends.0) == capacity,
        sender_mailbox(ends.0) == receiver_mailbox(ends.1),
{
    tokio::sync::mpsc::channel(capacity)
}

/// Offers a record to the mailbox without waiting.
///
/// Calls `Sender::try_send`. Whether the record is taken depends on what
/// the other users of the channel did, so nothing is claimed of the answer.
#[verifier::external_body]
pub(crate) fn try_enqueue(
    sender: &tokio::sync::mpsc::Sender<LogObject>,
    log: LogObject,
) -> (answer: Result<(), Rejection>) {
    match sender.try_send(log) {
        Ok(()) => Ok(()),
        Err(tokio::sync::mpsc::error::TrySendError::Full(_)) => Err(Rejection::Full),
        Err(tokio::sync::mpsc::error::TrySendError::Closed(_)) => Err(Rejection::Closed),
    }
}

/// Another sending end of the same mailbox.
///
/// Calls the `Clone` impl of `Sender`, which hands out one more handle to
/// the same channel.
#[verifier::external_body]
pub(crate) fn share(sender: &tokio::sync::mpsc::Sender<LogObject>) -> (other:
    tokio::sync::mpsc::Sender<LogObject>)
    ensures
        mailbox_capacity(other) == mailbox_capacity(*sender),
        sender_mailbox(other) == sender_mailbox(*sender),
{
    sender.clone()
}

/// The capacity the mailbox was opened with.
///
/// Calls `Sender::max_capacity`, which returns the bound given to
/// `channel`.
#[verifier::external_body]
pub(crate) fn capacity_of(sender: &tokio::sync::mpsc::Sender<LogObject>) -> (capacity: usize)
    ensures
        capacity == mailbox_capacity(*sender),
{
    sender.max_capacity()
}

} // verus!
