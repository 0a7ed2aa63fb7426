//! `head`: lets the first rows of its input through and drops the rest.

use crate::commands::parse_util::{single_argument_integer, single_integer, single_integer_complaint};
use crate::commands::CompileContext;
use crate::data::{Row, Value};
use crate::schema::{clone_schema, is_violation_of};
use crate::table::RowsReader;
use crate::errors::{argument_error, is_argument_error, CrushError, CrushResult, Kind};
use crate::stream::{fresh_ends, open_stream, OutputStream, Readable, ValueSender, STREAM_CAPACITY};
use vstd::prelude::*;

verus! {

/// The number of rows that a limit of `lines` lets through.
pub open spec fn row_limit(lines: i128) -> nat {
    if lines > 0 {
        lines as nat
    } else {
        0
    }
}

/// How one run of `head` can end, given the rows it read and the rows it
/// sent on, both in order, and the violations that its input has reported:
/// - at the limit: every row sent was read, and one more row was read and
///   dropped;
/// - at the end of the input, with every row read sent on;
/// - at a row that violates the schema of the input: the violation that the
///   input reported, its newest, is the error;
/// - at a reader that is gone: the row that could not be sent is dropped, and
///   this is no error.
pub open spec fn stopped(
    lines: i128,
    read: Seq<Row>,
    sent: Seq<Row>,
    res: CrushResult<()>,
    input_ended: bool,
    faults_before: Seq<CrushError>,
    faults_after: Seq<CrushError>,
    broken_before: bool,
    broken_after: bool,
) -> bool {
    ||| {
        &&& res is Ok
        &&& sent.len() == row_limit(lines)
        &&& read.len() == sent.len() + 1
        &&& read.take(sent.len() as int) == sent
        &&& faults_after == faults_before
        &&& broken_after == broken_before
    }
    ||| {
        &&& res is Ok
        &&& sent.len() <= row_limit(lines)
        &&& read == sent
        &&& input_ended
        &&& faults_after == faults_before
        &&& broken_after == broken_before
    }
    ||| {
        &&& res matches Err(error)
        &&& error.kind() == Kind::SchemaViolation
        &&& sent.len() <= row_limit(lines)
        &&& read == sent
        &&& faults_after == faults_before.push(error)
        &&& broken_after == broken_before
    }
    ||| {
        &&& res is Ok
        &&& sent.len() < row_limit(lines)
        &&& read.len() == sent.len() + 1
        &&& read.take(sent.len() as int) == sent
        &&& faults_after == faults_before
        &&& broken_after
    }
}

/// The smaller of two lengths.
pub open spec fn at_most(limit: nat, available: nat) -> nat {
    if limit <= available {
        limit
    } else {
        available
    }
}

/// What one run of `head` with a limit of `lines` does to its two ends.
///
/// The records of the two ends grow by the rows read and the rows sent, and
/// `stopped` says how these relate. Where the rows of the input are known in
/// advance, the rows read are the first of them, no error arises, and, unless
/// the reader of the output is gone, the rows sent are exactly the first
/// `lines` of them, or all if there are fewer.
pub open spec fn forwarded<R: Readable>(
    lines: i128,
    input_before: R,
    input_after: R,
    output_before: OutputStream,
    output_after: OutputStream,
    res: CrushResult<()>,
) -> bool {
    let read = input_after.delivered().skip(input_before.delivered().len() as int);
    let sent = output_after.sent().skip(output_before.sent().len() as int);
    &&& input_after.schema() == input_before.schema()
    &&& res matches Err(error) ==> is_violation_of(error, input_before.schema())
    &&& output_after.is_bounded() == output_before.is_bounded()
    &&& output_after.capacity() == output_before.capacity()
    &&& input_after.delivered() == input_before.delivered() + read
    &&& output_after.sent() == output_before.sent() + sent
    &&& stopped(
        lines,
        read,
        sent,
        res,
        input_after.ended(),
        input_before.faults(),
        input_after.faults(),
        output_before.broken(),
        output_after.broken(),
    )
    &&& input_before.pending() matches Some(rows) ==> {
        &&& res is Ok
        &&& read.len() <= rows.len()
        &&& read == rows.take(read.len() as int)
        &&& input_after.pending() == Some(rows.skip(read.len() as int))
        &&& !output_after.broken() ==> {
            &&& sent == rows.take(at_most(row_limit(lines), rows.len()) as int)
            &&& read.len() == at_most(row_limit(lines) + 1, rows.len())
        }
    }
}

/// Sends the first `lines` rows of `input` to `output`, in order, and stops.
/// A row that violates the schema of the input ends the run with the
/// violation that the input reported; a reader of `output` that is gone ends
/// it without error.
pub fn run<R: Readable>(lines: i128, input: &mut R, output: &mut OutputStream) -> (res:
    CrushResult<()>)
    ensures
        forwarded(lines, *old(input), *final(input), *old(output), *final(output), res),
{
    let ghost read_before = input.delivered();
    let ghost sent_before = output.sent();
    let ghost moved: Seq<Row> = Seq::empty();
    let mut count: i128 = 0;
    loop
        invariant
            0 <= count <= row_limit(lines),
            moved.len() == count,
            input.schema() == old(input).schema(),
            input.delivered() == read_before + moved,
            read_before == old(input).delivered(),
            output.sent() == sent_before + moved,
            sent_before == old(output).sent(),
            output.is_bounded() == old(output).is_bounded(),
            output.capacity() == old(output).capacity(),
            output.broken() == old(output).broken(),
            input.faults() == old(input).faults(),
            old(input).pending() is None ==> input.pending() is None,
            old(input).pending() matches Some(rows) ==> {
                &&& count <= rows.len()
                &&& moved == rows.take(count as int)
                &&& input.pending() == Some(rows.skip(count as int))
            },
        decreases row_limit(lines) - count,
    {
        match input.read() {
            Ok(row) => {
                let ghost passed = row;
                proof {
                    let read = input.delivered().skip(read_before.len() as int);
                    assert(read =~= moved.push(passed));
                    assert(input.delivered() =~= read_before + read);
                    assert(read.take(moved.len() as int) =~= moved);
                    assert(output.sent().skip(sent_before.len() as int) =~= moved);
                    if let Some(rows) = old(input).pending() {
                        assert(rows.skip(count as int)[0] == rows[count as int]);
                        assert(read =~= rows.take(count + 1));
                        assert(rows.skip(count as int).skip(1) =~= rows.skip(count + 1));
                    }
                }
                if count >= lines {
                    return Ok(());
                }
                match output.send(row) {
                    Ok(()) => {
                        proof {
                            moved = moved.push(passed);
                            assert(output.sent() =~= sent_before + moved);
                        }
                        count += 1;
                    },
                    Err(_) => {
                        return Ok(());
                    },
                }
            },
            Err(error) => {
                proof {
                    assert(input.delivered().skip(read_before.len() as int) =~= moved);
                    assert(output.sent().skip(sent_before.len() as int) =~= moved);
                    if let Some(rows) = old(input).pending() {
                        assert(rows.skip(count as int).len() == 0);
                        assert(rows.take(count as int) =~= rows);
                    }
                }
                return match error {
                    CrushError::EndOfData => Ok(()),
                    _ => Err(error),
                };
            },
        }
    }
}

/// The stream that `head` offers to the stage after it: a fresh bounded
/// stream with the schema of its input. The writing end is kept, the reading
/// end is the value to hand over.
pub fn output_for<R: Readable>(input: &R) -> (ends: (OutputStream, Value))
    ensures
        ends.0.is_bounded(),
        ends.0.capacity() == Some(STREAM_CAPACITY),
        ends.1 matches Value::Stream(offer) && fresh_ends(ends.0, offer.stream, input.schema()),
{
    open_stream(clone_schema(input.types()))
}

/// Goes on after the output stream was offered to the next stage, with
/// `offered`, the outcome of that handshake. A handshake that failed is the
/// result, and then no row is read and none is sent. After one that
/// succeeded, the rows are sent on as `run` does.
pub fn run_offered<R: Readable>(
    lines: i128,
    input: &mut R,
    output: &mut OutputStream,
    offered: CrushResult<()>,
) -> (res: CrushResult<()>)
    ensures
        offered matches Err(error) ==> res == Err::<(), CrushError>(error) && *final(input) == *old(input) && *final(output) == *old(output),
        offered is Ok ==> forwarded(
            lines,
            *old(input),
            *final(input),
            *old(output),
            *final(output),
            res,
        ),
{
    match offered {
        Ok(()) => run(lines, input, output),
        Err(error) => Err(error),
    }
}

/// What `head` reports for `input`, the value that the stage before it has
/// handed over. A value that is neither a stream nor a table is an argument
/// error. For a table, the only failure is a next stage that is gone before
/// it took the output stream; for a live stream, a row that violates its
/// schema is another, and the error is then the violation of such a row. A
/// next stage that stops reading later is no failure.
pub open spec fn performed(input: Value, res: CrushResult<()>) -> bool {
    match input {
        Value::Stream(s) => res is Ok || res == Err::<(), CrushError>(CrushError::ChannelClosed)
            || (res matches Err(error) && error.kind() == Kind::SchemaViolation
            && is_violation_of(error, s.stream.schema())),
        Value::Rows(_) => res is Ok || res == Err::<(), CrushError>(CrushError::ChannelClosed),
        _ => is_argument_error(res, "Expected a stream"@),
    }
}

/// Runs `head` with a limit of `lines` on `input`, the value that the stage
/// before it has handed over: offers the output stream, with the schema of
/// the input, to the next stage, and sends the rows on.
pub fn perform_with(lines: i128, input: Value, output: ValueSender) -> (res: CrushResult<()>)
    ensures
        performed(input, res),
{
    match input {
        Value::Stream(s) => {
            let mut input = s.stream;
            let (mut rows, offer) = output_for(&input);
            let offered = output.send(offer);
            run_offered(lines, &mut input, &mut rows, offered)
        },
        Value::Rows(r) => {
            let mut input = RowsReader::new(r);
            let (mut rows, offer) = output_for(&input);
            let offered = output.send(offer);
            run_offered(lines, &mut input, &mut rows, offered)
        },
        _ => Err(argument_error("Expected a stream")),
    }
}

/// Goes on after the wait for the stage before, with `received`, the outcome
/// of that handshake. A handshake that failed is the result, and nothing is
/// offered to the next stage. The value of one that succeeded is handled as
/// `perform_with` does.
pub fn perform_received(lines: i128, received: CrushResult<Value>, output: ValueSender) -> (res:
    CrushResult<()>)
    ensures
        received matches Err(error) ==> res == Err::<(), CrushError>(error),
        received matches Ok(input) ==> performed(input, res),
{
    match received {
        Ok(input) => perform_with(lines, input, output),
        Err(error) => Err(error),
    }
}

/// The command `head`: checks its arguments, waits for the result of the
/// stage before it and sends on the first rows of it.
///
/// Arguments that are not exactly one unnamed integer are reported before
/// anything is received, and only such arguments are reported so. With
/// arguments in order, what can be reported is a handshake that is closed,
/// on either side, a value handed over that is no stream, and a row of the
/// input that violates its schema.
pub fn perform(context: CompileContext) -> (res: CrushResult<()>)
    ensures
        single_integer(context.arguments@) is None ==> is_argument_error(
            res,
            single_integer_complaint(context.arguments@),
        ),
        single_integer(context.arguments@) is Some ==> (res is Ok || res == Err::<(), CrushError>(
            CrushError::ChannelClosed,
        ) || (res is Err && res->Err_0.kind() == Kind::SchemaViolation) || is_argument_error(
            res,
            "Expected a stream"@,
        )),
        res matches Err(error) ==> error.kind() == Kind::ArgumentError || error.kind()
            == Kind::ChannelClosed || error.kind() == Kind::SchemaViolation,
{
    let lines = match single_argument_integer(context.arguments) {
        Ok(lines) => lines,
        Err(error) => {
            return Err(error);
        },
    };
    perform_received(lines, context.input.recv(), context.output)
}

} // verus!
