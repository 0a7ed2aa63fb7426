use crush::data::ValueType;
use crush::errors::{CrushError, CrushResult};
use crush::lang::printer::{arrived, init, report, Device, PrinterMessage, PrinterSink, Rendering, DEFAULT_HEIGHT, DEFAULT_WIDTH, SINK_CAPACITY};

fn drain(sink: PrinterSink) -> Vec<Rendering> {
    let mut lines = Vec::new();
    loop {
        match sink.recv() {
            Some(message) => lines.push(message.render()),
            None => return lines,
        }
    }
}

fn output(text: &str) -> Rendering {
    Rendering { device: Device::Output, text: text.to_string() }
}

fn error(text: &str) -> Rendering {
    Rendering { device: Device::Error, text: text.to_string() }
}

#[test]
fn lines_of_one_sender_come_out_in_order() {
    let (mut printer, sink) = init();
    printer.line("a");
    printer.line("b");
    printer.line("c");
    drop(printer);
    assert_eq!(drain(sink), vec![output("a"), output("b"), output("c")]);
}

#[test]
fn every_message_is_one_line() {
    let (mut printer, sink) = init();
    printer.line("out");
    printer.error("plain");
    printer.crush_error(CrushError::EndOfData);
    drop(printer);
    assert_eq!(
        drain(sink),
        vec![output("out"), error("Error: plain"), error("Error: End of data")]
    );
}

#[test]
fn clones_feed_the_same_sink() {
    let (mut first, sink) = init();
    let mut second = first.clone();
    first.line("one");
    second.line("two");
    first.line("three");
    drop(first);
    drop(second);
    assert_eq!(drain(sink), vec![output("one"), output("two"), output("three")]);
}

#[test]
fn sink_is_done_when_every_printer_is_gone() {
    let (printer, sink) = init();
    let copy = printer.clone();
    drop(printer);
    drop(copy);
    assert!(sink.recv().is_none());
}

#[test]
fn printing_without_a_sink_is_passed_over() {
    let (mut printer, sink) = init();
    drop(sink);
    printer.line("lost");
    printer.error("lost");
    printer.crush_error(CrushError::EndOfData);
    let failed: CrushResult<()> = Err(CrushError::ArgumentError("lost".to_string()));
    printer.handle_error(failed);
}

#[test]
fn line_is_rendered_as_it_is() {
    assert_eq!(PrinterMessage::Line("plain text".to_string()).render(), output("plain text"));
    assert_eq!(PrinterMessage::Line("".to_string()).render(), output(""));
}

#[test]
fn plain_error_is_rendered_behind_its_mark() {
    assert_eq!(PrinterMessage::Error("no such file".to_string()).render(), error("Error: no such file"));
}

#[test]
fn structured_error_is_rendered_with_its_message() {
    let wrong_cell = CrushError::WrongCellType {
        column: "age".to_string(),
        expected: ValueType::Integer,
        actual: ValueType::Bool,
    };
    assert_eq!(
        PrinterMessage::CrushError(wrong_cell).render(),
        error("Error: Wrong cell type in input column age, expected integer, got bool")
    );
    assert_eq!(
        PrinterMessage::CrushError(CrushError::ArgumentError("Expected a stream".to_string())).render(),
        error("Error: Expected a stream")
    );
}

#[test]
fn handle_error_shows_argument_and_schema_errors() {
    let (mut printer, sink) = init();
    let bad_argument: CrushResult<()> = Err(CrushError::ArgumentError("Expected a stream".to_string()));
    printer.handle_error(bad_argument);
    let bad_row: CrushResult<u8> = Err(CrushError::WrongColumnCount { columns: 1, cells: 2 });
    printer.handle_error(bad_row);
    drop(printer);
    assert_eq!(
        drain(sink),
        vec![error("Error: Expected a stream"), error("Error: Wrong number of columns in input")]
    );
}

#[test]
fn handle_error_swallows_broken_pipe_and_closed_channel() {
    let (mut printer, sink) = init();
    let broken: CrushResult<()> = Err(CrushError::BrokenPipe);
    printer.handle_error(broken);
    let closed: CrushResult<()> = Err(CrushError::ChannelClosed);
    printer.handle_error(closed);
    drop(printer);
    assert_eq!(drain(sink), vec![]);
}

#[test]
fn handle_error_shows_nothing_for_success() {
    let (mut printer, sink) = init();
    let fine: CrushResult<u8> = Ok(1);
    printer.handle_error(fine);
    drop(printer);
    assert_eq!(drain(sink), vec![]);
}

#[test]
fn report_picks_the_errors_to_show() {
    let fine: CrushResult<u8> = Ok(1);
    assert!(report(fine).is_none());
    let broken: CrushResult<u8> = Err(CrushError::BrokenPipe);
    assert!(report(broken).is_none());
    let closed: CrushResult<u8> = Err(CrushError::ChannelClosed);
    assert!(report(closed).is_none());
    let ended: CrushResult<u8> = Err(CrushError::EndOfData);
    match report(ended) {
        Some(PrinterMessage::CrushError(shown)) => assert_eq!(shown, CrushError::EndOfData),
        _ => panic!("the error is not shown"),
    }
}

#[test]
fn sink_takes_its_capacity_without_a_consumer() {
    assert_eq!(SINK_CAPACITY, 128);
    let (mut printer, sink) = init();
    for _ in 0..128 {
        printer.line("x");
    }
    drop(printer);
    assert_eq!(drain(sink).len(), 128);
}

#[test]
fn width_and_height_of_a_known_terminal() {
    let (printer, _sink) = init();
    assert_eq!(printer.width(Some((120, 40))), 120);
    assert_eq!(printer.height(Some((120, 40))), 40);
    assert_eq!(printer.width(Some((0, 0))), 0);
    assert_eq!(printer.height(Some((u16::MAX, u16::MAX))), 65535);
}

#[test]
fn width_and_height_fall_back_to_eighty_by_thirty() {
    let (printer, _sink) = init();
    assert_eq!(printer.width(None), 80);
    assert_eq!(printer.height(None), 30);
    assert_eq!(DEFAULT_WIDTH, 80);
    assert_eq!(DEFAULT_HEIGHT, 30);
}

#[test]
fn raw_outcome_of_the_sink_is_a_message_or_the_end() {
    let came: Result<PrinterMessage, ()> = Ok(PrinterMessage::Line("x".to_string()));
    match arrived(came) {
        Some(message) => assert_eq!(message.render(), output("x")),
        None => panic!("the message was lost"),
    }
    let closed: Result<PrinterMessage, ()> = Err(());
    assert!(arrived(closed).is_none());
}
