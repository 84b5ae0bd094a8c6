use codex_client::pump::{
    error_channel, error_step, event_channel, output_step, writer_start, writer_step, ErrorAction,
    OutputAction, ReaderEvent, ReaderExit, WriteStage, WriterAction, WriterEvent, WriterExit,
    WriterState,
};

/// A stand-in for the agent's input pipe that records what reaches it.
struct Sink {
    bytes: Vec<u8>,
    flushed_at: Vec<usize>,
    fail_on_write: Option<usize>,
    writes: usize,
}

impl Sink {
    fn new() -> Sink {
        Sink { bytes: Vec::new(), flushed_at: Vec::new(), fail_on_write: None, writes: 0 }
    }

    fn write(&mut self, data: &[u8]) -> WriterEvent {
        self.writes += 1;
        if self.fail_on_write == Some(self.writes) {
            return WriterEvent::IoFailed("broken pipe".to_string());
        }
        self.bytes.extend_from_slice(data);
        WriterEvent::IoDone
    }

    fn flush(&mut self) -> WriterEvent {
        self.flushed_at.push(self.bytes.len());
        WriterEvent::IoDone
    }
}

/// Runs the writer pump over a queue that holds `lines` and is then closed.
fn run_writer(lines: &[&str], sink: &mut Sink) -> (WriterExit, usize) {
    let mut queue: Vec<String> = lines.iter().rev().map(|l| l.to_string()).collect();
    let (mut state, mut action) = writer_start();
    let mut received = 0;
    loop {
        let event = match action {
            WriterAction::Receive => match queue.pop() {
                Some(line) => {
                    received += 1;
                    WriterEvent::Dequeued(line)
                }
                None => WriterEvent::QueueClosed,
            },
            WriterAction::Write(text) => sink.write(text.as_bytes()),
            WriterAction::WriteNewline => sink.write(b"\n"),
            WriterAction::Flush => sink.flush(),
            WriterAction::Stop(exit) => {
                assert_eq!(state, WriterState::Finished);
                return (exit, received);
            }
        };
        let next = writer_step(state, event);
        state = next.0;
        action = next.1;
    }
}

#[test]
fn writer_starts_by_waiting() {
    let (state, action) = writer_start();
    assert_eq!(state, WriterState::Idle);
    assert!(matches!(action, WriterAction::Receive));
}

#[test]
fn writer_writes_each_line_whole_and_flushes_it() {
    let mut sink = Sink::new();
    let (exit, received) = run_writer(&["{\"a\":1}", "", "{\"b\":2}"], &mut sink);
    assert!(matches!(exit, WriterExit::QueueClosed));
    assert_eq!(received, 3);
    assert_eq!(sink.bytes, b"{\"a\":1}\n\n{\"b\":2}\n".to_vec());
    assert_eq!(sink.flushed_at, vec![8, 9, 17]);
    assert_eq!(sink.writes, 6);
}

#[test]
fn writer_on_an_empty_closed_queue_writes_nothing() {
    let mut sink = Sink::new();
    let (exit, received) = run_writer(&[], &mut sink);
    assert!(matches!(exit, WriterExit::QueueClosed));
    assert_eq!(received, 0);
    assert!(sink.bytes.is_empty());
    assert!(sink.flushed_at.is_empty());
}

#[test]
fn writer_ends_on_the_first_failed_write() {
    let mut sink = Sink::new();
    sink.fail_on_write = Some(3);
    let (exit, received) = run_writer(&["one", "two", "three"], &mut sink);
    match exit {
        WriterExit::PipeError { stage, cause } => {
            assert_eq!(stage, WriteStage::Payload);
            assert_eq!(cause, "broken pipe");
        }
        other => panic!("unexpected exit: {:?}", other),
    }
    assert_eq!(received, 2);
    assert_eq!(sink.bytes, b"one\n".to_vec());
    assert_eq!(sink.flushed_at, vec![4]);
}

#[test]
fn writer_names_the_stage_that_failed() {
    let (s, _) = writer_step(WriterState::Idle, WriterEvent::Dequeued("x".to_string()));
    assert_eq!(s, WriterState::WritingPayload);
    let (s, a) = writer_step(s, WriterEvent::IoDone);
    assert_eq!(s, WriterState::WritingNewline);
    assert!(matches!(a, WriterAction::WriteNewline));
    let (s2, a2) = writer_step(s, WriterEvent::IoFailed("e1".to_string()));
    assert_eq!(s2, WriterState::Finished);
    assert!(matches!(
        a2,
        WriterAction::Stop(WriterExit::PipeError { stage: WriteStage::Newline, .. })
    ));
    let (s, a) = writer_step(s, WriterEvent::IoDone);
    assert_eq!(s, WriterState::Flushing);
    assert!(matches!(a, WriterAction::Flush));
    let (s2, a2) = writer_step(s, WriterEvent::IoFailed("e2".to_string()));
    assert_eq!(s2, WriterState::Finished);
    match a2 {
        WriterAction::Stop(WriterExit::PipeError { stage, cause }) => {
            assert_eq!(stage, WriteStage::Flush);
            assert_eq!(cause, "e2");
        }
        other => panic!("unexpected action: {:?}", other),
    }
    let (s, a) = writer_step(s, WriterEvent::IoDone);
    assert_eq!(s, WriterState::Idle);
    assert!(matches!(a, WriterAction::Receive));
}

#[test]
fn writer_ends_on_events_out_of_turn() {
    let cases = vec![
        (WriterState::Idle, WriterEvent::IoDone),
        (WriterState::Idle, WriterEvent::IoFailed("x".to_string())),
        (WriterState::WritingPayload, WriterEvent::Dequeued("x".to_string())),
        (WriterState::WritingNewline, WriterEvent::QueueClosed),
        (WriterState::Flushing, WriterEvent::Dequeued("x".to_string())),
        (WriterState::Finished, WriterEvent::Dequeued("x".to_string())),
        (WriterState::Finished, WriterEvent::QueueClosed),
        (WriterState::Finished, WriterEvent::IoDone),
        (WriterState::Finished, WriterEvent::IoFailed("x".to_string())),
    ];
    for (state, event) in cases {
        let (next, action) = writer_step(state, event);
        assert_eq!(next, WriterState::Finished);
        assert!(matches!(action, WriterAction::Stop(WriterExit::OutOfTurn)));
    }
}

#[test]
fn channels_are_named_after_the_session() {
    assert_eq!(event_channel("s-1"), "codex-event-s-1");
    assert_eq!(error_channel("s-1"), "codex-error:s-1");
    assert_eq!(event_channel(""), "codex-event-");
}

#[test]
fn a_malformed_line_does_not_stop_the_output_pump() {
    let lines = ["{\"n\":1}", "not-json", "{\"n\":2}", "", "7", "{\"n\":3}"];
    let mut delivered = Vec::new();
    let mut reported = Vec::new();
    for line in lines {
        match output_step("s", ReaderEvent::Line(line.to_string())) {
            OutputAction::Deliver { channel, event } => {
                assert_eq!(channel, "codex-event-s");
                delivered.push(event.into_text());
            }
            OutputAction::Report(warning) => reported.push(warning.line),
            OutputAction::Stop(exit) => panic!("stopped: {:?}", exit),
        }
    }
    assert_eq!(delivered, vec!["{\"n\":1}", "{\"n\":2}", "{\"n\":3}"]);
    assert_eq!(reported, vec!["not-json", "", "7"]);
}

#[test]
fn output_pump_stops_at_the_end_of_the_stream() {
    assert!(matches!(
        output_step("s", ReaderEvent::EndOfStream),
        OutputAction::Stop(ReaderExit::EndOfStream)
    ));
    match output_step("s", ReaderEvent::ReadFailed("reset".to_string())) {
        OutputAction::Stop(ReaderExit::PipeError { cause }) => assert_eq!(cause, "reset"),
        other => panic!("unexpected action: {:?}", other),
    }
}

#[test]
fn error_pump_forwards_every_line_as_it_is() {
    for line in ["warning: something", "not-json", "{\"json\":true}", "", "  spaced  "] {
        match error_step("abc", ReaderEvent::Line(line.to_string())) {
            ErrorAction::Forward { channel, line: forwarded } => {
                assert_eq!(channel, "codex-error:abc");
                assert_eq!(forwarded, line);
            }
            other => panic!("unexpected action: {:?}", other),
        }
    }
}

#[test]
fn error_pump_stops_at_the_end_of_the_stream() {
    assert!(matches!(
        error_step("s", ReaderEvent::EndOfStream),
        ErrorAction::Stop(ReaderExit::EndOfStream)
    ));
    match error_step("s", ReaderEvent::ReadFailed("reset".to_string())) {
        ErrorAction::Stop(ReaderExit::PipeError { cause }) => assert_eq!(cause, "reset"),
        other => panic!("unexpected action: {:?}", other),
    }
}
