//! The one place through which everything that the user sees is written.
//!
//! Any number of stages hold a `Printer` and enqueue messages on it; one
//! consumer holds the `PrinterSink`, takes the messages off in the order in
//! which they were enqueued, and writes one line for each. Nothing else
//! writes to the terminal, so lines of different stages never mix.

use crate::channel::{bounded_messages, clone_message_sender, message_sender_capacity};
use crate::errors::{to_job_error, CrushError, CrushResult, Kind};
use crossbeam::channel::{Receiver, Sender};
use vstd::prelude::*;
use vstd::string::StringExecFns;

verus! {

/// One message for the user.
pub enum PrinterMessage {
    /// An error with its kind and its details.
    CrushError(CrushError),
    /// An error that is nothing but its text.
    Error(String),
    /// A line of ordinary output.
    Line(String),
}

/// A message, with its texts as sequences of characters.
pub enum MessageView {
    CrushError(CrushError),
    Error(Seq<char>),
    Line(Seq<char>),
}

impl View for PrinterMessage {
    type V = MessageView;

    open spec fn view(&self) -> MessageView {
        match self {
            PrinterMessage::CrushError(error) => MessageView::CrushError(*error),
            PrinterMessage::Error(text) => MessageView::Error(text@),
            PrinterMessage::Line(text) => MessageView::Line(text@),
        }
    }
}

/// Where a line is written: ordinary output, or the output for errors.
#[derive(Clone, Copy, Debug, PartialEq, Eq, Structural)]
pub enum Device {
    Output,
    Error,
}

/// One line to write, without its line end, and the device to write it to.
#[derive(Clone, Debug, PartialEq, Eq)]
pub struct Rendering {
    pub device: Device,
    pub text: String,
}

impl MessageView {
    /// The device a message is written to: errors to the error output, lines
    /// to the ordinary output.
    pub open spec fn device(self) -> Device {
        match self {
            MessageView::CrushError(_) => Device::Error,
            MessageView::Error(_) => Device::Error,
            MessageView::Line(_) => Device::Output,
        }
    }

    /// The line that is written for a message: a line as it is, an error
    /// behind the word that marks it as one.
    pub open spec fn text(self) -> Seq<char> {
        match self {
            MessageView::CrushError(error) => "Error: "@ + error.message_text(),
            MessageView::Error(text) => "Error: "@ + text,
            MessageView::Line(text) => text,
        }
    }
}

impl PrinterMessage {
    /// The one line that the sink writes for this message, and where.
    pub fn render(&self) -> (rendering: Rendering)
        ensures
            rendering.device == self@.device(),
            rendering.text@ == self@.text(),
    {
        match self {
            PrinterMessage::CrushError(error) => {
                let message = error.message();
                Rendering {
                    device: Device::Error,
                    text: String::from_str("Error: ").concat(message.as_str()),
                }
            },
            PrinterMessage::Error(text) => Rendering {
                device: Device::Error,
                text: String::from_str("Error: ").concat(text.as_str()),
            },
            PrinterMessage::Line(text) => Rendering { device: Device::Output, text: text.clone() },
        }
    }
}

/// Failures of this kind are expected when a stage stops early, and are not
/// shown to the user.
pub open spec fn is_swallowed(kind: Kind) -> bool {
    kind == Kind::BrokenPipe || kind == Kind::ChannelClosed
}

/// The message to show for the outcome of a stage: none for success and for
/// failures that are swallowed, the error itself for every other.
pub fn report<T>(result: CrushResult<T>) -> (message: Option<PrinterMessage>)
    ensures
        message == match result {
            Ok(_) => None,
            Err(error) => if is_swallowed(error.kind()) {
                None
            } else {
                Some(PrinterMessage::CrushError(error))
            },
        },
{
    match result {
        Ok(_) => None,
        Err(error) => match error.kind() {
            Kind::BrokenPipe => None,
            Kind::ChannelClosed => None,
            _ => Some(PrinterMessage::CrushError(error)),
        },
    }
}

/// Messages the sink holds before its printers have to wait for it.
pub const SINK_CAPACITY: usize = 128;

/// Columns of a terminal whose size cannot be found out.
pub const DEFAULT_WIDTH: usize = 80;

/// Rows of a terminal whose size cannot be found out.
pub const DEFAULT_HEIGHT: usize = 30;

/// A handle on which messages for the user are enqueued.
///
/// Beside the channel it holds the record of this handle: the messages it
/// has enqueued with success, oldest first, and whether an attempt has found
/// the sink gone.
pub struct Printer {
    sender: Sender<PrinterMessage>,
    queued: Ghost<Seq<MessageView>>,
    gone: Ghost<bool>,
}

impl Clone for Printer {
    /// One more handle on the same sink, which has enqueued nothing yet.
    fn clone(&self) -> (copy: Printer)
        ensures
            copy.queued() == Seq::<MessageView>::empty(),
            copy.sink_gone() == self.sink_gone(),
            copy.capacity() == self.capacity(),
    {
        Printer {
            sender: clone_message_sender(&self.sender),
            queued: Ghost(Seq::empty()),
            gone: self.gone,
        }
    }
}

/// The end at which the messages of all printers arrive.
pub struct PrinterSink {
    receiver: Receiver<PrinterMessage>,
}

/// A new sink and a printer for it that has enqueued nothing yet. The sink
/// holds up to `SINK_CAPACITY` messages before its printers have to wait.
pub fn init() -> (ends: (Printer, PrinterSink))
    ensures
        ends.0.queued() == Seq::<MessageView>::empty(),
        !ends.0.sink_gone(),
        ends.0.capacity() == Some(SINK_CAPACITY),
{
    let (sender, receiver) = bounded_messages(SINK_CAPACITY);
    (
        Printer { sender: sender, queued: Ghost(Seq::empty()), gone: Ghost(false) },
        PrinterSink { receiver },
    )
}

/// A call has tried to enqueue `message`: either it is now the newest
/// message enqueued, or the sink was found gone and nothing was enqueued.
pub open spec fn posted(before: Printer, after: Printer, message: MessageView) -> bool {
    &&& after.capacity() == before.capacity()
    &&& {
        ||| after.queued() == before.queued().push(message) && after.sink_gone()
            == before.sink_gone()
        ||| after.queued() == before.queued() && after.sink_gone()
    }
}

impl Printer {
    /// The messages enqueued with success through this handle, oldest first.
    pub closed spec fn queued(&self) -> Seq<MessageView> {
        self.queued@
    }

    /// The number of messages the sink was made to hold.
    pub closed spec fn capacity(&self) -> Option<usize> {
        message_sender_capacity(self.sender)
    }

    /// An attempt to enqueue through this handle has found the sink gone.
    pub closed spec fn sink_gone(&self) -> bool {
        self.gone@
    }

    /// Enqueues `message`, and reports a sink that is gone as `ChannelClosed`.
    fn post(&mut self, message: PrinterMessage) -> (res: CrushResult<()>)
        ensures
            final(self).capacity() == old(self).capacity(),
            res is Ok ==> final(self).queued() == old(self).queued().push(message@) && final(self).sink_gone() == old(self).sink_gone(),
            res matches Err(error) ==> error == CrushError::ChannelClosed && final(self).queued()
                == old(self).queued() && final(self).sink_gone(),
    {
        let ghost view = message@;
        let res = to_job_error(self.sender.send(message));
        if res.is_ok() {
            self.queued = Ghost(self.queued@.push(view));
        } else {
            self.gone = Ghost(true);
        }
        res
    }

    /// Enqueues a line of ordinary output. A sink that is gone is passed over.
    pub fn line(&mut self, line: &str)
        ensures
            posted(*old(self), *final(self), MessageView::Line(line@)),
    {
        let sent = self.post(PrinterMessage::Line(String::from_str(line)));
        self.handle_error(sent);
    }

    /// Enqueues the error of a failed `result`, unless it is of a kind that
    /// is swallowed. Success enqueues nothing.
    pub fn handle_error<T>(&mut self, result: CrushResult<T>)
        ensures
            match result {
                Ok(_) => *final(self) == *old(self),
                Err(error) => if is_swallowed(error.kind()) {
                    *final(self) == *old(self)
                } else {
                    posted(*old(self), *final(self), MessageView::CrushError(error))
                },
            },
    {
        if let Some(message) = report(result) {
            let _ = self.post(message);
        }
    }

    /// Enqueues an error. A sink that is gone is passed over.
    pub fn crush_error(&mut self, err: CrushError)
        ensures
            posted(*old(self), *final(self), MessageView::CrushError(err)),
    {
        let _ = self.post(PrinterMessage::CrushError(err));
    }

    /// Enqueues an error that is nothing but its text. A sink that is gone is
    /// passed over.
    pub fn error(&mut self, err: &str)
        ensures
            posted(*old(self), *final(self), MessageView::Error(err@)),
    {
        let _ = self.post(PrinterMessage::Error(String::from_str(err)));
    }

    /// The columns to format output for, given the size of the terminal as
    /// columns and rows, or `None` where it cannot be found out.
    pub fn width(&self, size: Option<(u16, u16)>) -> (columns: usize)
        ensures
            columns == match size {
                Some(s) => s.0 as usize,
                None => DEFAULT_WIDTH,
            },
    {
        match size {
            Some(s) => s.0 as usize,
            None => DEFAULT_WIDTH,
        }
    }

    /// The rows to format output for, given the size of the terminal as
    /// columns and rows, or `None` where it cannot be found out.
    pub fn height(&self, size: Option<(u16, u16)>) -> (rows: usize)
        ensures
            rows == match size {
                Some(s) => s.1 as usize,
                None => DEFAULT_HEIGHT,
            },
    {
        match size {
            Some(s) => s.1 as usize,
            None => DEFAULT_HEIGHT,
        }
    }
}

impl PrinterSink {
    /// Waits for the next message. `None` means that every printer is gone
    /// and every message has been taken: the sink is done.
    pub fn recv(&self) -> Option<PrinterMessage> {
        arrived(self.receiver.recv())
    }
}

/// What the sink makes of the raw outcome of waiting on its channel: the
/// message that came, or `None` for a channel that is closed and empty.
pub fn arrived<E>(outcome: Result<PrinterMessage, E>) -> (message: Option<PrinterMessage>)
    ensures
        message == match outcome {
            Ok(taken) => Some(taken),
            Err(_) => None,
        },
{
    match outcome {
        Ok(taken) => Some(taken),
        Err(_) => None,
    }
}

} // verus!
