//! The channel halves that join the UI to the worker, and the two
//! non-blocking operations on them.

use vstd::prelude::*;
use tokio::sync::mpsc::error::{TryRecvError, TrySendError};
use tokio::sync::mpsc::{Receiver, Sender};
use crate::request::UserRequest;

verus! {

/// `tokio::sync::mpsc::Sender`, the sending half of a bounded channel. Opaque.
#[verifier::external_type_specification]
#[verifier::external_body]
#[verifier::reject_recursive_types(T)]
pub struct ExSender<T>(Sender<T>);

/// `tokio::sync::mpsc::Receiver`, the receiving half of a bounded channel.
/// Opaque.
#[verifier::external_type_specification]
#[verifier::external_body]
#[verifier::reject_recursive_types(T)]
pub struct ExReceiver<T>(Receiver<T>);

/// What one non-blocking receive found.
#[derive(Debug, Clone, PartialEq, Eq)]
pub enum Polled<T> {
    /// The oldest item that was waiting.
    Item(T),
    /// Nothing waits now; the other side may still send.
    Empty,
    /// Nothing waits and nothing ever will: the sending half is gone.
    Closed,
}

/// A message that the channel did not take, handed back with the reason.
#[derive(Debug, Clone, PartialEq, Eq)]
pub enum Rejected<T> {
    /// The channel is at capacity.
    Full(T),
    /// The receiving half was closed or dropped.
    Closed(T),
}

impl<T> Rejected<T> {
    pub open spec fn message(self) -> T {
        match self {
            Rejected::Full(m) => m,
            Rejected::Closed(m) => m,
        }
    }
}

/// How many requests the queue to the worker holds at most.
pub const QUEUE_CAPACITY: usize = 1024;

/// Why a request could not be queued.
#[derive(Debug, Clone, Copy, PartialEq, Eq, Structural)]
pub enum EnqueueError {
    /// The queue is full for now: try again on a later tick.
    Busy,
    /// The worker is gone and takes no more requests.
    QueueClosed,
}

/// `tokio::sync::mpsc::Receiver::try_recv`: takes the next waiting item, if
/// any, without blocking. Which of the three outcomes comes depends on what
/// the sending side has done, so nothing is claimed of it.
#[verifier::external_body]
pub(crate) fn try_receive_from<T>(receiver: &mut Receiver<T>) -> (polled: Polled<T>) {
    match receiver.try_recv() {
        Ok(item) => Polled::Item(item),
        Err(TryRecvError::Empty) => Polled::Empty,
        Err(TryRecvError::Closed) => Polled::Closed,
    }
}

/// `tokio::sync::mpsc::Sender::try_send`: queues the message if the channel
/// has room and is open, without blocking. Whether it does depends on the
/// receiving side; claimed is only that a refused message is handed back as
/// it was given.
#[verifier::external_body]
pub(crate) fn try_send_to<T>(sender: &mut Sender<T>, message: T) -> (sent: Result<(), Rejected<T>>)
    ensures
        sent matches Err(rejected) ==> rejected.message() == message,
{
    match sender.try_send(message) {
        Ok(()) => Ok(()),
        Err(TrySendError::Full(m)) => Err(Rejected::Full(m)),
        Err(TrySendError::Closed(m)) => Err(Rejected::Closed(m)),
    }
}

/// What the caller of `enqueue` is told for each answer of the channel.
pub open spec fn spec_enqueue_outcome(sent: Result<(), Rejected<UserRequest>>) -> Result<
    (),
    EnqueueError,
> {
    match sent {
        Ok(()) => Ok(()),
        Err(Rejected::Full(_)) => Err(EnqueueError::Busy),
        Err(Rejected::Closed(_)) => Err(EnqueueError::QueueClosed),
    }
}

/// Names the channel's answer to a send for the caller: queued, busy for now,
/// or closed for good. A refused request is dropped.
pub fn enqueue_outcome(sent: Result<(), Rejected<UserRequest>>) -> (r: Result<(), EnqueueError>)
    ensures
        r == spec_enqueue_outcome(sent),
{
    match sent {
        Ok(()) => Ok(()),
        Err(Rejected::Full(_)) => Err(EnqueueError::Busy),
        Err(Rejected::Closed(_)) => Err(EnqueueError::QueueClosed),
    }
}

/// Puts a request on the queue to the worker without ever blocking. Which
/// answer comes is the channel's to decide.
pub fn enqueue(queue: &mut Sender<UserRequest>, request: UserRequest) -> (r: Result<(), EnqueueError>)
    ensures
        exists|sent: Result<(), Rejected<UserRequest>>|
            (sent matches Err(rejected) ==> rejected.message() == request) && r
                == #[trigger] spec_enqueue_outcome(sent),
{
    let sent = try_send_to(queue, request);
    enqueue_outcome(sent)
}

/// Takes the next waiting item of a channel, if any, without ever blocking.
/// An empty channel and a closed one are told apart.
pub fn try_receive<T>(receiver: &mut Receiver<T>) -> (polled: Polled<T>) {
    try_receive_from(receiver)
}

} // verus!
