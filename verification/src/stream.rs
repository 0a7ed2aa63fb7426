//! Row streams between stages, and the one-shot handshake that hands a
//! stage's result to the stage after it.
//!
//! What a channel holds depends on the other threads, so nothing is said of
//! it. Each stream end keeps instead a record, in ghost state, of what has
//! passed through that end; the contracts relate the record before a call to
//! the record after it.

use crate::channel::{
    bounded_rows, bounded_values, row_sender_capacity, unbounded_rows, value_receiver_capacity,
    value_sender_capacity,
};
use crate::data::{ColumnType, Row, Stream, Value};
use crate::schema::{admitted, check_row, conforms, is_violation_of, violation};
use crate::errors::{broken_pipe, to_job_error, CrushError, CrushResult, Kind};
use crossbeam::channel::{Receiver, Sender};
use vstd::prelude::*;

verus! {

/// Rows a stream holds before its producer has to wait for the consumer.
pub const STREAM_CAPACITY: usize = 128;

/// Values a handshake holds: the one it is made for.
pub const HANDSHAKE_CAPACITY: usize = 1;

/// The sending end of a handshake. Sending consumes it: a handshake carries
/// one value.
pub struct ValueSender {
    sender: Sender<Value>,
}

impl ValueSender {
    /// The number of values the handshake was made to hold.
    pub closed spec fn capacity(&self) -> Option<usize> {
        value_sender_capacity(self.sender)
    }

    /// Hands `cell` to the stage at the other end. Fails, with
    /// `ChannelClosed`, only when that stage has dropped its end.
    pub fn send(self, cell: Value) -> (res: CrushResult<()>)
        ensures
            res matches Err(error) ==> error == CrushError::ChannelClosed,
    {
        to_job_error(self.sender.send(cell))
    }

    /// Makes a bounded row stream with schema `signature`, hands its reading
    /// end to the next stage and returns the writing end, on which nothing
    /// has been sent yet.
    pub fn initialize(self, signature: Vec<ColumnType>) -> (res: CrushResult<OutputStream>)
        ensures
            res matches Ok(output) ==> output.is_bounded() && output.capacity() == Some(
                STREAM_CAPACITY,
            ) && output.sent() == Seq::<Row>::empty() && !output.broken(),
            res matches Err(error) ==> error == CrushError::ChannelClosed,
    {
        let (output, offer) = open_stream(signature);
        match self.send(offer) {
            Ok(()) => Ok(output),
            Err(error) => Err(error),
        }
    }
}

/// The receiving end of a handshake. Receiving consumes it.
pub struct ValueReceiver {
    receiver: Receiver<Value>,
}

impl ValueReceiver {
    /// The number of values the handshake was made to hold.
    pub closed spec fn capacity(&self) -> Option<usize> {
        value_receiver_capacity(self.receiver)
    }

    /// Waits for the value of the stage at the other end. Fails, with
    /// `ChannelClosed`, only when that stage dropped its end without sending.
    pub fn recv(self) -> (res: CrushResult<Value>)
        ensures
            res matches Err(error) ==> error == CrushError::ChannelClosed,
    {
        to_job_error(self.receiver.recv())
    }
}

/// The writing end of a row stream. `Sync` makes the producer wait while
/// `STREAM_CAPACITY` rows are unread, `Async` never makes it wait.
///
/// Beside the channel each variant holds the record of this end: the rows
/// that were sent with success, oldest first, and whether a send has failed.
pub enum OutputStream {
    Sync(Sender<Row>, Ghost<Seq<Row>>, Ghost<bool>),
    Async(Sender<Row>, Ghost<Seq<Row>>, Ghost<bool>),
}

impl OutputStream {
    /// The rows sent with success through this end, oldest first.
    pub open spec fn sent(&self) -> Seq<Row> {
        match self {
            OutputStream::Sync(_, sent, _) => sent@,
            OutputStream::Async(_, sent, _) => sent@,
        }
    }

    /// A send through this end has failed.
    pub open spec fn broken(&self) -> bool {
        match self {
            OutputStream::Sync(_, _, broken) => broken@,
            OutputStream::Async(_, _, broken) => broken@,
        }
    }

    /// The stream makes its producer wait for a slow consumer.
    pub open spec fn is_bounded(&self) -> bool {
        self is Sync
    }

    /// The number of unread rows the stream was made to hold, `None` for a
    /// stream made without limit.
    pub open spec fn capacity(&self) -> Option<usize> {
        match self {
            OutputStream::Sync(sender, _, _) => row_sender_capacity(*sender),
            OutputStream::Async(sender, _, _) => row_sender_capacity(*sender),
        }
    }

    /// Sends one row. Fails, with `BrokenPipe`, only when the reading end is
    /// gone; the row is then recorded as not sent.
    pub fn send(&mut self, row: Row) -> (res: CrushResult<()>)
        ensures
            final(self).is_bounded() == old(self).is_bounded(),
            final(self).capacity() == old(self).capacity(),
            res is Ok ==> final(self).sent() == old(self).sent().push(row) && final(self).broken()
                == old(self).broken(),
            res matches Err(error) ==> error == CrushError::BrokenPipe && final(self).sent() == old(self).sent() && final(self).broken(),
    {
        let ghost passed = row;
        match self {
            OutputStream::Sync(sender, sent, broken) => {
                let native_output = sender.send(row);
                match native_output {
                    Ok(_) => {
                        *sent = Ghost(sent@.push(passed));
                        Ok(())
                    },
                    Err(_) => {
                        *broken = Ghost(true);
                        Err(CrushError::BrokenPipe)
                    },
                }
            },
            OutputStream::Async(sender, sent, broken) => {
                let native_output = sender.send(row);
                match native_output {
                    Ok(_) => {
                        *sent = Ghost(sent@.push(passed));
                        Ok(())
                    },
                    Err(_) => {
                        *broken = Ghost(true);
                        Err(CrushError::BrokenPipe)
                    },
                }
            },
        }
    }
}

/// A source of rows of one schema: a live stream or a table that is read row
/// by row. A stage is written against this trait and does not care which of
/// the two feeds it.
pub trait Readable {
    /// The schema that every row read conforms to.
    spec fn schema(&self) -> Seq<ColumnType>;

    /// The rows that `read` has handed out so far, oldest first.
    spec fn delivered(&self) -> Seq<Row>;

    /// The schema violations that `read` has reported so far, oldest first.
    spec fn faults(&self) -> Seq<CrushError>;

    /// No more rows will come.
    spec fn ended(&self) -> bool;

    /// The rows still to come, where they are known in advance.
    spec fn pending(&self) -> Option<Seq<Row>>;

    /// The next row, which conforms to the schema, or `EndOfData`, or the
    /// schema violation of the row that arrived.
    fn read(&mut self) -> (res: CrushResult<Row>)
        ensures
            final(self).schema() == old(self).schema(),
            res matches Ok(row) ==> conforms(row@, old(self).schema()) && final(self).delivered()
                == old(self).delivered().push(row) && final(self).faults() == old(self).faults(),
            res matches Err(error) ==> final(self).delivered() == old(self).delivered() && (error
                == CrushError::EndOfData || (error.kind() == Kind::SchemaViolation
                && is_violation_of(error, old(self).schema()))),
            res matches Err(error) ==> final(self).faults() == (if error == CrushError::EndOfData {
                old(self).faults()
            } else {
                old(self).faults().push(error)
            }),
            res == Err::<Row, CrushError>(CrushError::EndOfData) ==> final(self).ended(),
            old(self).pending() is None ==> final(self).pending() is None,
            old(self).pending() matches Some(rows) ==> (if rows.len() > 0 {
                res == Ok::<Row, CrushError>(rows[0]) && final(self).pending() == Some(
                    rows.skip(1),
                )
            } else {
                res == Err::<Row, CrushError>(CrushError::EndOfData) && final(self).pending()
                    == Some(rows)
            }),
    ;

    /// The schema, for a stage that builds its own output schema from it.
    fn types(&self) -> (types: &Vec<ColumnType>)
        ensures
            types@ == self.schema(),
    ;
}

/// The reading end of a row stream, with the schema its rows must have.
///
/// Beside the channel it holds the record of this end: the rows handed out
/// and the schema violations reported, each oldest first, and whether the
/// stream was found closed.
pub struct InputStream {
    receiver: Receiver<Row>,
    types: Vec<ColumnType>,
    received: Ghost<Seq<Row>>,
    rejected: Ghost<Seq<CrushError>>,
    closed: Ghost<bool>,
}

impl InputStream {
    /// Waits for the next row and holds it against the schema. A row that
    /// conforms is handed out and recorded. Otherwise the error is the
    /// row's schema violation, which is recorded, or `BrokenPipe` when the
    /// stream is closed.
    pub fn recv(&mut self) -> (res: CrushResult<Row>)
        ensures
            final(self).schema() == old(self).schema(),
            res matches Ok(row) ==> conforms(row@, old(self).schema()) && final(self).delivered()
                == old(self).delivered().push(row) && final(self).ended() == old(self).ended()
                && final(self).faults() == old(self).faults(),
            res matches Err(error) ==> final(self).delivered() == old(self).delivered() && (error
                == CrushError::BrokenPipe || (error.kind() == Kind::SchemaViolation
                && is_violation_of(error, old(self).schema()))),
            res matches Err(error) ==> final(self).faults() == (if error
                == CrushError::BrokenPipe {
                old(self).faults()
            } else {
                old(self).faults().push(error)
            }),
            res == Err::<Row, CrushError>(CrushError::BrokenPipe) ==> final(self).ended(),
    {
        let received = broken_pipe(self.receiver.recv());
        let ghost arrived = received;
        let checked = self.validate(received);
        proof {
            if let Ok(row) = arrived {
                if !conforms(row@, self.schema()) {
                    assert(checked == Err::<Row, CrushError>(violation(row@, self.schema())));
                    assert(is_violation_of(violation(row@, self.schema()), self.schema()));
                }
            }
        }
        match checked {
            Ok(row) => {
                self.received = Ghost(self.received@.push(row));
                Ok(row)
            },
            Err(error) => {
                if let CrushError::BrokenPipe = error {
                    self.closed = Ghost(true);
                } else {
                    self.rejected = Ghost(self.rejected@.push(error));
                }
                Err(error)
            },
        }
    }

    pub fn types(&self) -> (types: &Vec<ColumnType>)
        ensures
            types@ == self.schema(),
    {
        &self.types
    }

    /// Lets a row pass exactly when it conforms to the schema of this stream,
    /// and replaces it by its schema violation when it does not. A failure to
    /// receive passes unchanged.
    pub fn validate(&self, res: CrushResult<Row>) -> (checked: CrushResult<Row>)
        ensures
            res is Err ==> checked == res,
            res matches Ok(row) ==> checked == admitted(row, self.schema()),
            checked matches Ok(read) ==> res == Ok::<Row, CrushError>(read) && conforms(
                read@,
                self.schema(),
            ),
            res is Ok && checked is Err ==> checked->Err_0.kind() == Kind::SchemaViolation,
    {
        match res {
            Ok(row) => match check_row(row.cells(), &self.types) {
                Ok(()) => Ok(row),
                Err(error) => Err(error),
            },
            Err(error) => Err(error),
        }
    }
}

impl Readable for InputStream {
    closed spec fn schema(&self) -> Seq<ColumnType> {
        self.types@
    }

    closed spec fn delivered(&self) -> Seq<Row> {
        self.received@
    }

    closed spec fn faults(&self) -> Seq<CrushError> {
        self.rejected@
    }

    closed spec fn ended(&self) -> bool {
        self.closed@
    }

    open spec fn pending(&self) -> Option<Seq<Row>> {
        None
    }

    fn read(&mut self) -> (res: CrushResult<Row>) {
        match self.recv() {
            Ok(row) => Ok(row),
            Err(error) => match error {
                CrushError::BrokenPipe => Err(CrushError::EndOfData),
                _ => Err(error),
            },
        }
    }

    fn types(&self) -> (types: &Vec<ColumnType>) {
        InputStream::types(self)
    }
}

/// The two ends of a fresh handshake, which holds one value: sending it does
/// not wait for the receiver.
pub fn channels() -> (ends: (ValueSender, ValueReceiver))
    ensures
        ends.0.capacity() == Some(HANDSHAKE_CAPACITY),
        ends.1.capacity() == Some(HANDSHAKE_CAPACITY),
{
    let (send, recv) = bounded_values(HANDSHAKE_CAPACITY);
    (ValueSender { sender: send }, ValueReceiver { receiver: recv })
}

/// The two ends of a fresh row stream with schema `signature` that makes its
/// producer wait while `STREAM_CAPACITY` rows are unread.
pub fn streams(signature: Vec<ColumnType>) -> (ends: (OutputStream, InputStream))
    ensures
        ends.0.is_bounded(),
        ends.0.capacity() == Some(STREAM_CAPACITY),
        fresh_ends(ends.0, ends.1, signature@),
{
    let (output, input) = bounded_rows(STREAM_CAPACITY);
    (
        OutputStream::Sync(output, Ghost(Seq::empty()), Ghost(false)),
        InputStream {
            receiver: input,
            types: signature,
            received: Ghost(Seq::empty()),
            rejected: Ghost(Seq::empty()),
            closed: Ghost(false),
        },
    )
}

/// The two ends of a fresh row stream with schema `signature` that never
/// makes its producer wait.
pub fn unlimited_streams(signature: Vec<ColumnType>) -> (ends: (OutputStream, InputStream))
    ensures
        !ends.0.is_bounded(),
        ends.0.capacity() == None::<usize>,
        fresh_ends(ends.0, ends.1, signature@),
{
    let (output, input) = unbounded_rows();
    (
        OutputStream::Async(output, Ghost(Seq::empty()), Ghost(false)),
        InputStream {
            receiver: input,
            types: signature,
            received: Ghost(Seq::empty()),
            rejected: Ghost(Seq::empty()),
            closed: Ghost(false),
        },
    )
}

/// Nothing has passed through either end yet, and the reading end has the
/// given schema.
pub open spec fn fresh_ends(output: OutputStream, input: InputStream, schema: Seq<ColumnType>) -> bool {
    &&& output.sent() == Seq::<Row>::empty()
    &&& !output.broken()
    &&& input.schema() == schema
    &&& input.delivered() == Seq::<Row>::empty()
    &&& input.faults() == Seq::<CrushError>::empty()
    &&& !input.ended()
}

/// A fresh bounded row stream with schema `signature`, as a stage offers it
/// to the stage after it: the writing end to keep, and the reading end as
/// the value to hand over.
pub fn open_stream(signature: Vec<ColumnType>) -> (ends: (OutputStream, Value))
    ensures
        ends.0.is_bounded(),
        ends.0.capacity() == Some(STREAM_CAPACITY),
        ends.1 matches Value::Stream(offer) && fresh_ends(ends.0, offer.stream, signature@),
{
    let (output, input) = streams(signature);
    (output, Value::Stream(Stream { stream: input }))
}

/// The receiving end of a handshake that already holds its value, an empty
/// stream: the input of the first stage of a pipeline.
pub fn empty_channel() -> (receiver: ValueReceiver)
    ensures
        receiver.capacity() == Some(HANDSHAKE_CAPACITY),
{
    let (o, i) = channels();
    let _ = o.send(Value::empty_stream());
    i
}

} // verus!
