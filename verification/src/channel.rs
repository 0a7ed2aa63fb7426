//! The channel primitives of `crossbeam` that the pipeline is built on.
//!
//! Everything in this file is taken on trust: the verifier does not look
//! inside `crossbeam`, it only learns the types and the contracts below.
//! A channel is shared between threads, so nothing here describes what a
//! channel holds; the contracts state only what is true of every outcome,
//! and the capacity that a channel was made with, which never changes.

use crate::data::{Row, Value};
use crate::lang::printer::PrinterMessage;
use crossbeam::channel::{Receiver, Sender};
use vstd::prelude::*;

verus! {

/// Largest capacity this crate asks of a bounded channel.
pub const MAX_CAPACITY: usize = 128;

/// `crossbeam::channel::Sender`: the sending half of a channel, opaque here.
#[verifier::external_type_specification]
#[verifier::external_body]
#[verifier::reject_recursive_types(T)]
pub struct ExSender<T>(crossbeam::channel::Sender<T>);

/// `crossbeam::channel::Receiver`: the receiving half of a channel, opaque here.
#[verifier::external_type_specification]
#[verifier::external_body]
#[verifier::reject_recursive_types(T)]
pub struct ExReceiver<T>(crossbeam::channel::Receiver<T>);

/// `crossbeam::channel::SendError`: the failure of `send`; its one public
/// field is the message that could not be sent.
#[verifier::external_type_specification]
#[verifier::reject_recursive_types(T)]
pub struct ExSendError<T>(crossbeam::channel::SendError<T>);

/// `crossbeam::channel::RecvError`: the failure of `recv`, a unit struct.
#[verifier::external_type_specification]
#[verifier::external_body]
pub struct ExRecvError(crossbeam::channel::RecvError);

/// What `Sender::capacity` reports of the sending half of a handshake: `Some`
/// of the number of values the channel was made to hold, `None` for a channel
/// made without limit.
pub uninterp spec fn value_sender_capacity(sender: Sender<Value>) -> Option<usize>;

/// What `Receiver::capacity` reports of the receiving half of a handshake.
pub uninterp spec fn value_receiver_capacity(receiver: Receiver<Value>) -> Option<usize>;

/// What `Sender::capacity` reports of the sending half of a row stream.
pub uninterp spec fn row_sender_capacity(sender: Sender<Row>) -> Option<usize>;

/// What `Sender::capacity` reports of the sending half of the channel to the
/// sink.
pub uninterp spec fn message_sender_capacity(sender: Sender<PrinterMessage>) -> Option<usize>;

/// `crossbeam::channel::bounded`, for a handshake: the two halves of a new
/// channel, both of which report the capacity it was made with. Capacities
/// above `MAX_CAPACITY` are left out: the buffer is allocated up front.
#[verifier::external_body]
pub(crate) fn bounded_values(cap: usize) -> (ends: (Sender<Value>, Receiver<Value>))
    requires
        cap <= MAX_CAPACITY,
    ensures
        value_sender_capacity(ends.0) == Some(cap),
        value_receiver_capacity(ends.1) == Some(cap),
{
    crossbeam::channel::bounded(cap)
}

/// `crossbeam::channel::bounded`, for a row stream: the two halves of a new
/// channel, whose sending half reports the capacity it was made with.
#[verifier::external_body]
pub(crate) fn bounded_rows(cap: usize) -> (ends: (Sender<Row>, Receiver<Row>))
    requires
        cap <= MAX_CAPACITY,
    ensures
        row_sender_capacity(ends.0) == Some(cap),
{
    crossbeam::channel::bounded(cap)
}

/// `crossbeam::channel::unbounded`, for a row stream: the two halves of a new
/// channel, whose sending half reports that it has no limit.
#[verifier::external_body]
pub(crate) fn unbounded_rows() -> (ends: (Sender<Row>, Receiver<Row>))
    ensures
        row_sender_capacity(ends.0) == None::<usize>,
{
    crossbeam::channel::unbounded()
}

/// `crossbeam::channel::bounded`, for the sink: the two halves of a new
/// channel, whose sending half reports the capacity it was made with.
#[verifier::external_body]
pub(crate) fn bounded_messages(cap: usize) -> (ends: (
    Sender<PrinterMessage>,
    Receiver<PrinterMessage>,
))
    requires
        cap <= MAX_CAPACITY,
    ensures
        message_sender_capacity(ends.0) == Some(cap),
{
    crossbeam::channel::bounded(cap)
}

/// `Sender::clone` makes one more sending half of the same channel, which
/// therefore reports the same capacity. (The crate gives up where more halves
/// exist than an `isize` can count, which takes leaking them on purpose.)
#[verifier::external_body]
pub(crate) fn clone_message_sender(sender: &Sender<PrinterMessage>) -> (copy: Sender<
    PrinterMessage,
>)
    ensures
        message_sender_capacity(copy) == message_sender_capacity(*sender),
{
    sender.clone()
}

/// `Sender::send` blocks while the channel is full and a receiver is alive.
/// It fails only when every receiver is gone, and the error then hands back
/// the very message that was passed in.
pub assume_specification<T>[ crossbeam::channel::Sender::<T>::send ](
    sender: &crossbeam::channel::Sender<T>,
    msg: T,
) -> (res: Result<(), crossbeam::channel::SendError<T>>)
    ensures
        res matches Err(e) ==> e.0 == msg,
;

/// `Receiver::recv` blocks while the channel is empty and a sender is alive.
/// Which message arrives, or whether the channel turns out to be closed,
/// depends on the other threads: nothing is claimed of the result.
pub assume_specification<T>[ crossbeam::channel::Receiver::<T>::recv ](
    receiver: &crossbeam::channel::Receiver<T>,
) -> (res: Result<T, crossbeam::channel::RecvError>);

} // verus!
