//! What every command is written against, and the commands themselves.

use crate::data::Argument;
use crate::stream::{ValueReceiver, ValueSender};
use vstd::prelude::*;

pub mod head;
pub mod parse_util;

verus! {

/// What a command is started with: its arguments, the handshake on which the
/// stage before it hands over its result, and the handshake on which it
/// hands over its own.
pub struct CompileContext {
    pub arguments: Vec<Argument>,
    pub input: ValueReceiver,
    pub output: ValueSender,
}

} // verus!
