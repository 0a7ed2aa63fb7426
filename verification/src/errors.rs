//! The errors of the pipeline core: what went wrong, of which kind it is, and
//! the one line of text that is shown for it.

use crate::data::ValueType;
use vstd::prelude::*;
use vstd::string::StringExecFns;

verus! {

/// The kinds of failure a stage can meet. Callers decide by kind what to
/// report and what to pass over.
#[derive(Clone, Copy, Debug, PartialEq, Eq, Structural)]
pub enum Kind {
    /// Bad or missing command arguments.
    ArgumentError,
    /// A row that does not have the shape its schema declares.
    SchemaViolation,
    /// The other end of a row stream is gone.
    BrokenPipe,
    /// The other end of a handshake is gone.
    ChannelClosed,
    /// A source of rows has no more rows to give.
    EndOfData,
}

/// A failure, with what the reader of the message needs to know about it.
#[derive(Clone, Debug, PartialEq, Eq)]
pub enum CrushError {
    /// The arguments of a command are not what it takes; the text says why.
    ArgumentError(String),
    /// A row has `cells` cells where its schema has `columns` columns.
    WrongColumnCount { columns: usize, cells: usize },
    /// The cell in column `column` is of type `actual`, the schema declares
    /// `expected`.
    WrongCellType { column: String, expected: ValueType, actual: ValueType },
    /// A row was sent on a stream that nobody reads any more.
    BrokenPipe,
    /// A handshake was tried whose other end is gone.
    ChannelClosed,
    /// All rows have been read.
    EndOfData,
}

pub type CrushResult<T> = Result<T, CrushError>;

impl CrushError {
    /// The kind of this error.
    pub open spec fn spec_kind(&self) -> Kind {
        match self {
            CrushError::ArgumentError(_) => Kind::ArgumentError,
            CrushError::WrongColumnCount { .. } => Kind::SchemaViolation,
            CrushError::WrongCellType { .. } => Kind::SchemaViolation,
            CrushError::BrokenPipe => Kind::BrokenPipe,
            CrushError::ChannelClosed => Kind::ChannelClosed,
            CrushError::EndOfData => Kind::EndOfData,
        }
    }

    #[verifier::when_used_as_spec(spec_kind)]
    pub fn kind(&self) -> (kind: Kind)
        ensures
            kind == self.spec_kind(),
    {
        match self {
            CrushError::ArgumentError(_) => Kind::ArgumentError,
            CrushError::WrongColumnCount { .. } => Kind::SchemaViolation,
            CrushError::WrongCellType { .. } => Kind::SchemaViolation,
            CrushError::BrokenPipe => Kind::BrokenPipe,
            CrushError::ChannelClosed => Kind::ChannelClosed,
            CrushError::EndOfData => Kind::EndOfData,
        }
    }

    /// The text shown for this error.
    pub open spec fn message_text(&self) -> Seq<char> {
        match self {
            CrushError::ArgumentError(text) => text@,
            CrushError::WrongColumnCount { .. } => "Wrong number of columns in input"@,
            CrushError::WrongCellType { column, expected, actual } => {
                "Wrong cell type in input column "@ + column@ + ", expected "@
                    + expected.name_text() + ", got "@ + actual.name_text()
            },
            CrushError::BrokenPipe => "Broken pipe"@,
            CrushError::ChannelClosed => "Channel closed"@,
            CrushError::EndOfData => "End of data"@,
        }
    }

    pub fn message(&self) -> (text: String)
        ensures
            text@ == self.message_text(),
    {
        match self {
            CrushError::ArgumentError(text) => text.clone(),
            CrushError::WrongColumnCount { .. } => String::from_str(
                "Wrong number of columns in input",
            ),
            CrushError::WrongCellType { column, expected, actual } => {
                let text = String::from_str("Wrong cell type in input column ");
                let text = text.concat(column.as_str());
                let text = text.concat(", expected ");
                let text = text.concat(expected.name());
                let text = text.concat(", got ");
                text.concat(actual.name())
            },
            CrushError::BrokenPipe => String::from_str("Broken pipe"),
            CrushError::ChannelClosed => String::from_str("Channel closed"),
            CrushError::EndOfData => String::from_str("End of data"),
        }
    }
}

/// `res` is an argument error with the text `complaint`.
pub open spec fn is_argument_error<T>(res: CrushResult<T>, complaint: Seq<char>) -> bool {
    res matches Err(CrushError::ArgumentError(text)) && text@ == complaint
}

/// The error for arguments that a command does not take.
pub fn argument_error(message: &str) -> (error: CrushError)
    ensures
        error matches CrushError::ArgumentError(text) && text@ == message@,
{
    CrushError::ArgumentError(String::from_str(message))
}

/// What a handshake reports for the raw outcome of a channel operation: the
/// value that came through, or that the channel is closed.
pub fn to_job_error<T, E>(result: Result<T, E>) -> (res: CrushResult<T>)
    ensures
        result matches Ok(value) ==> res == Ok::<T, CrushError>(value),
        result is Err ==> res == Err::<T, CrushError>(CrushError::ChannelClosed),
{
    match result {
        Ok(value) => Ok(value),
        Err(_) => Err(CrushError::ChannelClosed),
    }
}

/// What a row stream reports for the raw outcome of a channel operation: the
/// value that came through, or that the pipe is broken.
pub fn broken_pipe<T, E>(result: Result<T, E>) -> (res: CrushResult<T>)
    ensures
        result matches Ok(value) ==> res == Ok::<T, CrushError>(value),
        result is Err ==> res == Err::<T, CrushError>(CrushError::BrokenPipe),
{
    match result {
        Ok(value) => Ok(value),
        Err(_) => Err(CrushError::BrokenPipe),
    }
}

} // verus!
