//! The decisions of the three pumps that move lines between the client and
//! the agent process.
//!
//! Each pump is a loop around a pipe. The loop itself, with its waiting, is
//! the embedding program's; what to do next is decided here. The writer pump
//! is asked after every message taken from the queue and after every write or
//! flush; the two reader pumps are asked after every read.

use vstd::prelude::*;
use crate::codec::{decode_event, is_json_object, DecodeWarning, Event};
use crate::text::prefixed;

verus! {

/// Where the writer pump stands between two steps.
#[derive(Clone, Copy, Debug, PartialEq, Eq, Structural)]
pub enum WriterState {
    /// Waiting for the next message from the queue.
    Idle,
    /// The message's text is being written.
    WritingPayload,
    /// The line feed that ends the message is being written.
    WritingNewline,
    /// The pipe is being flushed.
    Flushing,
    /// The pump has ended.
    Finished,
}

/// The part of a message's delivery that a pipe error struck.
#[derive(Clone, Copy, Debug, PartialEq, Eq, Structural)]
pub enum WriteStage {
    Payload,
    Newline,
    Flush,
}

/// What happened since the writer pump's last step.
#[derive(Debug)]
pub enum WriterEvent {
    /// The queue handed over its next message.
    Dequeued(String),
    /// The queue is empty and its sending side is gone.
    QueueClosed,
    /// The write or flush that was asked for succeeded.
    IoDone,
    /// The write or flush that was asked for failed.
    IoFailed(String),
}

/// A writer event as plain values.
pub enum WriterEventView {
    Dequeued(Seq<char>),
    QueueClosed,
    IoDone,
    IoFailed(Seq<char>),
}

impl View for WriterEvent {
    type V = WriterEventView;

    open spec fn view(&self) -> WriterEventView {
        match self {
            WriterEvent::Dequeued(line) => WriterEventView::Dequeued(line@),
            WriterEvent::QueueClosed => WriterEventView::QueueClosed,
            WriterEvent::IoDone => WriterEventView::IoDone,
            WriterEvent::IoFailed(cause) => WriterEventView::IoFailed(cause@),
        }
    }
}

/// Why the writer pump ended.
#[derive(Debug)]
pub enum WriterExit {
    /// Every message was delivered and no more can come.
    QueueClosed,
    /// A write or flush failed. It is not tried again.
    PipeError { stage: WriteStage, cause: String },
    /// An event came that the pump's state does not allow, or the pump had
    /// ended before.
    OutOfTurn,
}

/// A writer exit as plain values.
pub enum WriterExitView {
    QueueClosed,
    PipeError { stage: WriteStage, cause: Seq<char> },
    OutOfTurn,
}

impl View for WriterExit {
    type V = WriterExitView;

    open spec fn view(&self) -> WriterExitView {
        match self {
            WriterExit::QueueClosed => WriterExitView::QueueClosed,
            WriterExit::PipeError { stage, cause } => WriterExitView::PipeError {
                stage: *stage,
                cause: cause@,
            },
            WriterExit::OutOfTurn => WriterExitView::OutOfTurn,
        }
    }
}

/// What the writer pump does next.
#[derive(Debug)]
pub enum WriterAction {
    /// Wait for the next message from the queue.
    Receive,
    /// Write this text to the agent's input.
    Write(String),
    /// Write a line feed to the agent's input.
    WriteNewline,
    /// Flush the agent's input.
    Flush,
    /// End the loop.
    Stop(WriterExit),
}

/// A writer action as plain values.
pub enum WriterActionView {
    Receive,
    Write(Seq<char>),
    WriteNewline,
    Flush,
    Stop(WriterExitView),
}

impl View for WriterAction {
    type V = WriterActionView;

    open spec fn view(&self) -> WriterActionView {
        match self {
            WriterAction::Receive => WriterActionView::Receive,
            WriterAction::Write(text) => WriterActionView::Write(text@),
            WriterAction::WriteNewline => WriterActionView::WriteNewline,
            WriterAction::Flush => WriterActionView::Flush,
            WriterAction::Stop(exit) => WriterActionView::Stop(exit@),
        }
    }
}

/// The stage that a state is busy with, if it is busy with one.
pub open spec fn spec_stage(state: WriterState) -> Option<WriteStage> {
    match state {
        WriterState::WritingPayload => Some(WriteStage::Payload),
        WriterState::WritingNewline => Some(WriteStage::Newline),
        WriterState::Flushing => Some(WriteStage::Flush),
        _ => None,
    }
}

/// The writer pump's next state and action.
///
/// A message is written, then its line feed, then the pipe is flushed, and
/// only then is the next message taken. A failed write or flush ends the
/// pump, as does the closing of the queue and any event out of turn.
pub open spec fn spec_writer_step(state: WriterState, event: WriterEventView) -> (
    WriterState,
    WriterActionView,
) {
    match (state, event) {
        (WriterState::Idle, WriterEventView::Dequeued(line)) => (
            WriterState::WritingPayload,
            WriterActionView::Write(line),
        ),
        (WriterState::Idle, WriterEventView::QueueClosed) => (
            WriterState::Finished,
            WriterActionView::Stop(WriterExitView::QueueClosed),
        ),
        (WriterState::WritingPayload, WriterEventView::IoDone) => (
            WriterState::WritingNewline,
            WriterActionView::WriteNewline,
        ),
        (WriterState::WritingNewline, WriterEventView::IoDone) => (
            WriterState::Flushing,
            WriterActionView::Flush,
        ),
        (WriterState::Flushing, WriterEventView::IoDone) => (
            WriterState::Idle,
            WriterActionView::Receive,
        ),
        (_, WriterEventView::IoFailed(cause)) => match spec_stage(state) {
            Some(stage) => (
                WriterState::Finished,
                WriterActionView::Stop(WriterExitView::PipeError { stage, cause }),
            ),
            None => (WriterState::Finished, WriterActionView::Stop(WriterExitView::OutOfTurn)),
        },
        _ => (WriterState::Finished, WriterActionView::Stop(WriterExitView::OutOfTurn)),
    }
}

/// The state and the action that the writer pump starts with.
pub fn writer_start() -> (r: (WriterState, WriterAction))
    ensures
        r.0 == WriterState::Idle,
        r.1@ == WriterActionView::Receive,
{
    (WriterState::Idle, WriterAction::Receive)
}

/// Decides the writer pump's next state and action from its state and the
/// outcome of its last action.
pub fn writer_step(state: WriterState, event: WriterEvent) -> (r: (WriterState, WriterAction))
    ensures
        (r.0, r.1@) == spec_writer_step(state, event@),
{
    match event {
        WriterEvent::Dequeued(line) => match state {
            WriterState::Idle => (WriterState::WritingPayload, WriterAction::Write(line)),
            _ => (WriterState::Finished, WriterAction::Stop(WriterExit::OutOfTurn)),
        },
        WriterEvent::QueueClosed => match state {
            WriterState::Idle => (
                WriterState::Finished,
                WriterAction::Stop(WriterExit::QueueClosed),
            ),
            _ => (WriterState::Finished, WriterAction::Stop(WriterExit::OutOfTurn)),
        },
        WriterEvent::IoDone => match state {
            WriterState::WritingPayload => (
                WriterState::WritingNewline,
                WriterAction::WriteNewline,
            ),
            WriterState::WritingNewline => (WriterState::Flushing, WriterAction::Flush),
            WriterState::Flushing => (WriterState::Idle, WriterAction::Receive),
            _ => (WriterState::Finished, WriterAction::Stop(WriterExit::OutOfTurn)),
        },
        WriterEvent::IoFailed(cause) => {
            let exit = match state {
                WriterState::WritingPayload => WriterExit::PipeError {
                    stage: WriteStage::Payload,
                    cause,
                },
                WriterState::WritingNewline => WriterExit::PipeError {
                    stage: WriteStage::Newline,
                    cause,
                },
                WriterState::Flushing => WriterExit::PipeError { stage: WriteStage::Flush, cause },
                _ => WriterExit::OutOfTurn,
            };
            (WriterState::Finished, WriterAction::Stop(exit))
        },
    }
}

/// What a read from one of the agent's two output pipes brought.
#[derive(Debug)]
pub enum ReaderEvent {
    /// One line, without its line feed.
    Line(String),
    /// The agent has closed the pipe or has exited.
    EndOfStream,
    /// The read failed.
    ReadFailed(String),
}

/// A reader event as plain values.
pub enum ReaderEventView {
    Line(Seq<char>),
    EndOfStream,
    ReadFailed(Seq<char>),
}

impl View for ReaderEvent {
    type V = ReaderEventView;

    open spec fn view(&self) -> ReaderEventView {
        match self {
            ReaderEvent::Line(line) => ReaderEventView::Line(line@),
            ReaderEvent::EndOfStream => ReaderEventView::EndOfStream,
            ReaderEvent::ReadFailed(cause) => ReaderEventView::ReadFailed(cause@),
        }
    }
}

/// Why a reader pump ended.
#[derive(Debug)]
pub enum ReaderExit {
    EndOfStream,
    PipeError { cause: String },
}

/// A reader exit as plain values.
pub enum ReaderExitView {
    EndOfStream,
    PipeError { cause: Seq<char> },
}

impl View for ReaderExit {
    type V = ReaderExitView;

    open spec fn view(&self) -> ReaderExitView {
        match self {
            ReaderExit::EndOfStream => ReaderExitView::EndOfStream,
            ReaderExit::PipeError { cause } => ReaderExitView::PipeError { cause: cause@ },
        }
    }
}

/// What the pump on the agent's output does with what it read.
#[derive(Debug)]
pub enum OutputAction {
    /// Hand the event to the session's event sink, then read on.
    Deliver { channel: String, event: Event },
    /// Hand the line to the diagnostic sink, then read on.
    Report(DecodeWarning),
    /// End the loop.
    Stop(ReaderExit),
}

/// An output action as plain values.
pub enum OutputActionView {
    Deliver { channel: Seq<char>, event: Seq<char> },
    Report { line: Seq<char> },
    Stop(ReaderExitView),
}

impl View for OutputAction {
    type V = OutputActionView;

    open spec fn view(&self) -> OutputActionView {
        match self {
            OutputAction::Deliver { channel, event } => OutputActionView::Deliver {
                channel: channel@,
                event: event@,
            },
            OutputAction::Report(warning) => OutputActionView::Report { line: warning.line@ },
            OutputAction::Stop(exit) => OutputActionView::Stop(exit@),
        }
    }
}

/// What the pump on the agent's error stream does with what it read.
#[derive(Debug)]
pub enum ErrorAction {
    /// Hand the line, as it is, to the session's error sink, then read on.
    Forward { channel: String, line: String },
    /// End the loop.
    Stop(ReaderExit),
}

/// An error action as plain values.
pub enum ErrorActionView {
    Forward { channel: Seq<char>, line: Seq<char> },
    Stop(ReaderExitView),
}

impl View for ErrorAction {
    type V = ErrorActionView;

    open spec fn view(&self) -> ErrorActionView {
        match self {
            ErrorAction::Forward { channel, line } => ErrorActionView::Forward {
                channel: channel@,
                line: line@,
            },
            ErrorAction::Stop(exit) => ErrorActionView::Stop(exit@),
        }
    }
}

/// The name of the sink for a session's events.
pub open spec fn spec_event_channel(session_id: Seq<char>) -> Seq<char> {
    "codex-event-"@ + session_id
}

/// The name of the sink for a session's error lines.
pub open spec fn spec_error_channel(session_id: Seq<char>) -> Seq<char> {
    "codex-error:"@ + session_id
}

/// The name of the sink for a session's events.
pub fn event_channel(session_id: &str) -> (r: String)
    ensures
        r@ == spec_event_channel(session_id@),
{
    prefixed("codex-event-", session_id)
}

/// The name of the sink for a session's error lines.
pub fn error_channel(session_id: &str) -> (r: String)
    ensures
        r@ == spec_error_channel(session_id@),
{
    prefixed("codex-error:", session_id)
}

/// How a reader pump ends on an event that is not a line.
pub open spec fn spec_reader_exit(event: ReaderEventView) -> ReaderExitView {
    match event {
        ReaderEventView::ReadFailed(cause) => ReaderExitView::PipeError { cause },
        _ => ReaderExitView::EndOfStream,
    }
}

/// The action of the output pump: a line that is a JSON object is
/// delivered as an event, any other line is reported, and the pump stops
/// only where the stream has ended or the read failed.
pub open spec fn spec_output_step(session_id: Seq<char>, event: ReaderEventView)
    -> OutputActionView {
    match event {
        ReaderEventView::Line(line) => if is_json_object(line) {
            OutputActionView::Deliver { channel: spec_event_channel(session_id), event: line }
        } else {
            OutputActionView::Report { line }
        },
        _ => OutputActionView::Stop(spec_reader_exit(event)),
    }
}

/// The action of the error pump: every line is forwarded as it is, and the
/// pump stops only where the stream has ended or the read failed.
pub open spec fn spec_error_step(session_id: Seq<char>, event: ReaderEventView)
    -> ErrorActionView {
    match event {
        ReaderEventView::Line(line) => ErrorActionView::Forward {
            channel: spec_error_channel(session_id),
            line,
        },
        _ => ErrorActionView::Stop(spec_reader_exit(event)),
    }
}

/// Decides what the pump on the agent's output does with what it read.
pub fn output_step(session_id: &str, event: ReaderEvent) -> (action: OutputAction)
    ensures
        action@ == spec_output_step(session_id@, event@),
{
    match event {
        ReaderEvent::Line(line) => match decode_event(line) {
            Ok(event) => OutputAction::Deliver { channel: event_channel(session_id), event },
            Err(warning) => OutputAction::Report(warning),
        },
        ReaderEvent::EndOfStream => OutputAction::Stop(ReaderExit::EndOfStream),
        ReaderEvent::ReadFailed(cause) => OutputAction::Stop(ReaderExit::PipeError { cause }),
    }
}

/// Decides what the pump on the agent's error stream does with what it read.
pub fn error_step(session_id: &str, event: ReaderEvent) -> (action: ErrorAction)
    ensures
        action@ == spec_error_step(session_id@, event@),
{
    match event {
        ReaderEvent::Line(line) => ErrorAction::Forward {
            channel: error_channel(session_id),
            line,
        },
        ReaderEvent::EndOfStream => ErrorAction::Stop(ReaderExit::EndOfStream),
        ReaderEvent::ReadFailed(cause) => ErrorAction::Stop(ReaderExit::PipeError { cause }),
    }
}

/// A line that is no JSON object does not end the output pump, and has no
/// effect on what is done with the line after it: a JSON object is
/// delivered whatever came before.
pub proof fn lemma_malformed_line_does_not_stop_output(
    session_id: Seq<char>,
    malformed: Seq<char>,
    next: Seq<char>,
)
    requires
        !is_json_object(malformed),
        is_json_object(next),
    ensures
        spec_output_step(session_id, ReaderEventView::Line(malformed))
            == (OutputActionView::Report { line: malformed }),
        spec_output_step(session_id, ReaderEventView::Line(next)) == (OutputActionView::Deliver {
            channel: spec_event_channel(session_id),
            event: next,
        }),
{
}

/// The writer pump's state and its actions, in order, after a sequence of
/// events.
pub open spec fn spec_writer_run(state: WriterState, events: Seq<WriterEventView>) -> (
    WriterState,
    Seq<WriterActionView>,
)
    decreases events.len(),
{
    if events.len() == 0 {
        (state, Seq::empty())
    } else {
        let before = spec_writer_run(state, events.drop_last());
        let step = spec_writer_step(before.0, events.last());
        (step.0, before.1.push(step.1))
    }
}

/// What happens while one message is delivered without failure: it is
/// taken from the queue, and two writes and a flush succeed.
pub open spec fn delivery_events(line: Seq<char>) -> Seq<WriterEventView> {
    seq![
        WriterEventView::Dequeued(line),
        WriterEventView::IoDone,
        WriterEventView::IoDone,
        WriterEventView::IoDone,
    ]
}

/// What happens while the messages `lines` are delivered without failure,
/// one after another.
pub open spec fn healthy_events(lines: Seq<Seq<char>>) -> Seq<WriterEventView>
    decreases lines.len(),
{
    if lines.len() == 0 {
        Seq::empty()
    } else {
        healthy_events(lines.drop_last()) + delivery_events(lines.last())
    }
}

/// Running the pump over two runs of events is running it over the first
/// and then, from where that ended, over the second.
pub proof fn lemma_writer_run_concat(
    state: WriterState,
    first: Seq<WriterEventView>,
    second: Seq<WriterEventView>,
)
    ensures
        spec_writer_run(state, first + second) == ({
            let a = spec_writer_run(state, first);
            let b = spec_writer_run(a.0, second);
            (b.0, a.1 + b.1)
        }),
    decreases second.len(),
{
    let a = spec_writer_run(state, first);
    if second.len() == 0 {
        assert(first + second =~= first);
        assert(a.1 + Seq::<WriterActionView>::empty() =~= a.1);
    } else {
        lemma_writer_run_concat(state, first, second.drop_last());
        assert((first + second).drop_last() =~= first + second.drop_last());
        assert((first + second).last() == second.last());
        let b0 = spec_writer_run(a.0, second.drop_last());
        let step = spec_writer_step(b0.0, second.last());
        assert((a.1 + b0.1).push(step.1) =~= a.1 + b0.1.push(step.1));
    }
}

/// From `Idle`, the delivery of one message without failure is four actions:
/// write the message, write the line feed, flush, take the next message.
pub proof fn lemma_writer_delivers_one(line: Seq<char>)
    ensures
        spec_writer_run(WriterState::Idle, delivery_events(line)) == (
            WriterState::Idle,
            seq![
                WriterActionView::Write(line),
                WriterActionView::WriteNewline,
                WriterActionView::Flush,
                WriterActionView::Receive,
            ],
        ),
{
    let e = delivery_events(line);
    let e3 = e.drop_last();
    let e2 = e3.drop_last();
    let e1 = e2.drop_last();
    let e0 = e1.drop_last();
    assert(e0.len() == 0);
    let r0 = spec_writer_run(WriterState::Idle, e0);
    assert(r0 == (WriterState::Idle, Seq::<WriterActionView>::empty()));
    let r1 = spec_writer_run(WriterState::Idle, e1);
    assert(e1.last() == WriterEventView::Dequeued(line));
    assert(r1.0 == WriterState::WritingPayload);
    assert(r1.1 =~= seq![WriterActionView::Write(line)]);
    let r2 = spec_writer_run(WriterState::Idle, e2);
    assert(e2.last() == WriterEventView::IoDone);
    assert(r2.0 == WriterState::WritingNewline);
    assert(r2.1 =~= seq![WriterActionView::Write(line), WriterActionView::WriteNewline]);
    let r3 = spec_writer_run(WriterState::Idle, e3);
    assert(e3.last() == WriterEventView::IoDone);
    assert(r3.0 == WriterState::Flushing);
    assert(r3.1 =~= seq![
        WriterActionView::Write(line),
        WriterActionView::WriteNewline,
        WriterActionView::Flush,
    ]);
    let r4 = spec_writer_run(WriterState::Idle, e);
    assert(e.last() == WriterEventView::IoDone);
    assert(r4.1 =~= seq![
        WriterActionView::Write(line),
        WriterActionView::WriteNewline,
        WriterActionView::Flush,
        WriterActionView::Receive,
    ]);
}

/// However many messages the queue holds, the writer pump delivers them in
/// the order of the queue, each one whole: its text, then one line feed,
/// then a flush, and only then the next message. No write belongs to two
/// messages, and the pump ends where it began, waiting.
pub proof fn lemma_writer_delivers_whole_lines(lines: Seq<Seq<char>>)
    ensures
        spec_writer_run(WriterState::Idle, healthy_events(lines)).0 == WriterState::Idle,
        spec_writer_run(WriterState::Idle, healthy_events(lines)).1.len() == 4 * lines.len(),
        forall|k: int|
            #![trigger lines[k]]
            0 <= k < lines.len() ==> {
                let actions = spec_writer_run(WriterState::Idle, healthy_events(lines)).1;
                &&& actions[4 * k] == WriterActionView::Write(lines[k])
                &&& actions[4 * k + 1] == WriterActionView::WriteNewline
                &&& actions[4 * k + 2] == WriterActionView::Flush
                &&& actions[4 * k + 3] == WriterActionView::Receive
            },
    decreases lines.len(),
{
    if lines.len() > 0 {
        let front = lines.drop_last();
        lemma_writer_delivers_whole_lines(front);
        lemma_writer_delivers_one(lines.last());
        lemma_writer_run_concat(
            WriterState::Idle,
            healthy_events(front),
            delivery_events(lines.last()),
        );
        let before = spec_writer_run(WriterState::Idle, healthy_events(front)).1;
        let actions = spec_writer_run(WriterState::Idle, healthy_events(lines)).1;
        assert(actions.len() == 4 * lines.len());
        assert forall|k: int| #![trigger lines[k]] 0 <= k < lines.len() implies {
            &&& actions[4 * k] == WriterActionView::Write(lines[k])
            &&& actions[4 * k + 1] == WriterActionView::WriteNewline
            &&& actions[4 * k + 2] == WriterActionView::Flush
            &&& actions[4 * k + 3] == WriterActionView::Receive
        } by {
            if k < front.len() {
                assert(front[k] == lines[k]);
                assert(actions[4 * k] == before[4 * k]);
                assert(actions[4 * k + 1] == before[4 * k + 1]);
                assert(actions[4 * k + 2] == before[4 * k + 2]);
                assert(actions[4 * k + 3] == before[4 * k + 3]);
            }
        }
    }
}

/// A failed write or flush ends the writer pump at once, and an ended pump
/// stays ended whatever comes.
pub proof fn lemma_writer_stops_for_good(
    state: WriterState,
    cause: Seq<char>,
    later: WriterEventView,
)
    ensures
        spec_writer_step(state, WriterEventView::IoFailed(cause)).0 == WriterState::Finished,
        spec_writer_step(state, WriterEventView::IoFailed(cause)).1 is Stop,
        spec_writer_step(WriterState::Finished, later).0 == WriterState::Finished,
        spec_writer_step(WriterState::Finished, later).1 is Stop,
{
}

} // verus!
