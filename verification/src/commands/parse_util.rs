//! Argument checks that commands share.

use crate::data::{Argument, Value};
use crate::errors::{argument_error, is_argument_error, CrushError, CrushResult};
use vstd::prelude::*;

verus! {

/// The integer that the arguments give, if they are exactly one unnamed
/// integer.
pub open spec fn single_integer(arguments: Seq<Argument>) -> Option<i128> {
    if arguments.len() == 1 && arguments[0].name is None {
        match arguments[0].value {
            Value::Integer(number) => Some(number),
            _ => None,
        }
    } else {
        None
    }
}

/// What is wrong with arguments that are not exactly one unnamed integer.
pub open spec fn single_integer_complaint(arguments: Seq<Argument>) -> Seq<char> {
    if arguments.len() != 1 {
        "Expected exactly one argument"@
    } else if arguments[0].name is Some {
        "Expected an unnamed argument"@
    } else {
        "Expected an integer"@
    }
}

/// The value of the single, unnamed integer argument of a command, or the
/// argument error that says what the command was given instead.
pub fn single_argument_integer(arguments: Vec<Argument>) -> (res: CrushResult<i128>)
    ensures
        single_integer(arguments@) matches Some(number) ==> res == Ok::<i128, CrushError>(number),
        single_integer(arguments@) is None ==> is_argument_error(
            res,
            single_integer_complaint(arguments@),
        ),
{
    if arguments.len() != 1 {
        return Err(argument_error("Expected exactly one argument"));
    }
    if arguments[0].name.is_some() {
        return Err(argument_error("Expected an unnamed argument"));
    }
    match &arguments[0].value {
        Value::Integer(number) => Ok(*number),
        _ => Err(argument_error("Expected an integer")),
    }
}

} // verus!
