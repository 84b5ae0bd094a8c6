//! The session client: typed requests to one agent process, and its shutdown.
//!
//! A client owns the sending side of the outbound queue and the handle of the
//! process. The queue is a `tokio` unbounded channel, whose receiving side
//! belongs to the writer pump. The process handle is of any type `P`: the
//! client never looks into it, it only keeps it and gives it up on close.

use vstd::prelude::*;
use tokio::sync::mpsc::UnboundedSender;
use crate::codec::{encode_submission, has_line_break, spec_encode_submission};
use crate::command::{CodexConfig, ConfigView};
use crate::error::ClientError;
use crate::protocol::{Decision, ItemView, OpView, Submission, SubmissionView};
use crate::pump::{healthy_events, lemma_writer_delivers_whole_lines, spec_writer_run,
    WriterActionView, WriterState};

verus! {

/// `tokio::sync::mpsc::UnboundedSender`, the sending side of an unbounded
/// channel. Nothing is read from it.
#[verifier::external_type_specification]
#[verifier::external_body]
#[verifier::reject_recursive_types(T)]
pub struct ExUnboundedSender<T>(UnboundedSender<T>);

/// Whether a character is a decimal digit or one of `a` to `f`.
pub open spec fn is_lower_hex(c: char) -> bool {
    ('0' <= c && c <= '9') || ('a' <= c && c <= 'f')
}

/// Whether a text has the hyphenated form of a UUID in lower case:
/// 36 characters, hyphens after 8, 12, 16 and 20 hexadecimal digits.
pub open spec fn is_hyphenated_uuid(s: Seq<char>) -> bool {
    &&& s.len() == 36
    &&& forall|i: int|
        0 <= i < 36 ==> if i == 8 || i == 13 || i == 18 || i == 23 {
            #[trigger] s[i] == '-'
        } else {
            is_lower_hex(s[i])
        }
}

/// `uuid::Uuid::new_v4` draws a random UUID, and its `to_string` writes it
/// in the hyphenated lower-case form. Which one is drawn is a matter of
/// chance; only the form is claimed. (It panics where the operating system
/// hands out no random bytes.)
#[verifier::external_body]
fn fresh_id() -> (id: String)
    ensures
        is_hyphenated_uuid(id@),
{
    uuid::Uuid::new_v4().to_string()
}

/// `UnboundedSender::send` puts a message on the channel without waiting.
/// It fails where the receiving side is closed or gone, and then hands the
/// message back. Whether it is gone is not the sender's to know, so nothing
/// more is claimed. (It aborts the process where the channel already holds
/// half of `usize::MAX` messages, which no memory can hold.)
#[verifier::external_body]
fn enqueue(queue: &UnboundedSender<String>, line: String) -> (r: Result<(), String>)
    ensures
        r matches Err(back) ==> back@ == line@,
{
    queue.send(line).map_err(|e| e.0)
}

/// Where a session stands in its life.
#[derive(Clone, Copy, Debug, PartialEq, Eq, Structural)]
pub enum SessionState {
    /// The process is being planned and started; no client exists yet.
    Starting,
    /// The client holds the process and the queue.
    Running,
    /// `close_session` is at work.
    Closing,
    /// The client holds nothing. No operation leaves this state.
    Closed,
}

/// What moves a session through its life, or fails to.
#[derive(Clone, Copy, Debug, PartialEq, Eq, Structural)]
pub enum SessionStep {
    /// The process runs and the three pumps have been started.
    PumpsStarted,
    /// A submission was handed to the queue.
    SubmissionQueued,
    /// The process has exited by itself.
    ProcessExited,
    /// `close_session` was called.
    CloseCalled,
    /// The process has been told to terminate.
    ProcessSignalled,
}

impl SessionState {
    /// The state after a step: `Starting`, `Running`, `Closing`, `Closed`, in
    /// this order and one at a time. A step that does not fit the state
    /// changes nothing; neither does a submission, nor the exit of the
    /// process, which only a close takes note of.
    pub open spec fn spec_after(self, step: SessionStep) -> SessionState {
        match (self, step) {
            (SessionState::Starting, SessionStep::PumpsStarted) => SessionState::Running,
            (SessionState::Running, SessionStep::CloseCalled) => SessionState::Closing,
            (SessionState::Closing, SessionStep::ProcessSignalled) => SessionState::Closed,
            _ => self,
        }
    }

    /// The state of a session after a step.
    pub fn after(self, step: SessionStep) -> (next: SessionState)
        ensures
            next == self.spec_after(step),
    {
        match self {
            SessionState::Starting => match step {
                SessionStep::PumpsStarted => SessionState::Running,
                _ => self,
            },
            SessionState::Running => match step {
                SessionStep::CloseCalled => SessionState::Closing,
                _ => self,
            },
            SessionState::Closing => match step {
                SessionStep::ProcessSignalled => SessionState::Closed,
                _ => self,
            },
            SessionState::Closed => self,
        }
    }
}

/// What a client holds and has done, as plain values.
pub struct ClientView {
    pub session_id: Seq<char>,
    pub config: ConfigView,
    pub holds_process: bool,
    pub holds_queue: bool,
    /// The lines that the queue has taken from this client, oldest first.
    pub sent: Seq<Seq<char>>,
}

impl ClientView {
    /// A session is active while it holds both its process and its queue.
    pub open spec fn is_active(self) -> bool {
        self.holds_process && self.holds_queue
    }

    /// The state that a client is observed in.
    pub open spec fn state(self) -> SessionState {
        if self.is_active() {
            SessionState::Running
        } else {
            SessionState::Closed
        }
    }

    /// Every line that the queue has taken is a line: it holds no line feed.
    pub open spec fn lines_are_whole(self) -> bool {
        forall|i: int| 0 <= i < self.sent.len() ==> !has_line_break(#[trigger] self.sent[i])
    }

    /// The client after the queue has taken one more line from it.
    pub open spec fn after_sending(self, line: Seq<char>) -> ClientView {
        ClientView { sent: self.sent.push(line), ..self }
    }

    /// The same session, holding neither process nor queue.
    pub open spec fn closed(self) -> ClientView {
        ClientView { holds_process: false, holds_queue: false, ..self }
    }

    /// What sending `submission` may make of a client and report.
    ///
    /// Without a queue the send fails with `SessionClosed` and nothing is
    /// sent. With one, the queue decides. Where it takes the line, the send
    /// succeeds, and the submission's line, which holds no line feed, is the
    /// last one sent. Where it does not, because its receiving side is gone,
    /// the send fails with `SessionClosed` and nothing is sent. There is no
    /// other failure.
    pub open spec fn send_step(
        self,
        submission: SubmissionView,
        after: ClientView,
        r: Result<(), ClientError>,
    ) -> bool {
        match r {
            Ok(_) => {
                &&& self.holds_queue
                &&& after == self.after_sending(spec_encode_submission(submission))
                &&& !has_line_break(spec_encode_submission(submission))
            },
            Err(e) => after == self && e is SessionClosed,
        }
    }

    /// The client after the queue has taken the lines of `submissions` from
    /// it, one after another.
    pub open spec fn after_sending_all(self, submissions: Seq<SubmissionView>) -> ClientView {
        ClientView {
            sent: self.sent + Seq::new(
                submissions.len(),
                |i: int| spec_encode_submission(submissions[i]),
            ),
            ..self
        }
    }

    /// Whether `after` is what a run of sends makes of a client, where the
    /// sends took their turns in the order of `submissions` and each of them
    /// succeeded.
    pub open spec fn sends_in_turn(self, submissions: Seq<SubmissionView>, after: ClientView)
        -> bool
        decreases submissions.len(),
    {
        if submissions.len() == 0 {
            after == self
        } else {
            exists|before_last: ClientView|
                self.sends_in_turn(submissions.drop_last(), before_last)
                    && #[trigger] before_last.send_step(submissions.last(), after, Ok(()))
        }
    }

    /// What closing may make of a client and report, where `id` is the
    /// identifier drawn for the shutdown submission: the shutdown is sent as
    /// any submission is, and then the client holds nothing.
    pub open spec fn close_step(
        self,
        id: Seq<char>,
        after: ClientView,
        shutdown: Result<(), ClientError>,
    ) -> bool {
        exists|sent: ClientView| #[trigger]
            self.send_step(shutdown_view(id), sent, shutdown) && after == sent.closed()
    }
}

/// The submission that carries `message` as a single text block.
pub open spec fn user_input_view(id: Seq<char>, message: Seq<char>) -> SubmissionView {
    SubmissionView { id, op: OpView::UserInput { items: seq![ItemView::Text { text: message }] } }
}

/// The submission that allows or denies the command `approval_id`.
pub open spec fn exec_approval_view(id: Seq<char>, approval_id: Seq<char>, approved: bool)
    -> SubmissionView {
    SubmissionView {
        id,
        op: OpView::ExecApproval {
            id: approval_id,
            decision: Decision::spec_from_approved(approved),
        },
    }
}

/// The submission that allows or denies the patch `approval_id`.
pub open spec fn patch_approval_view(id: Seq<char>, approval_id: Seq<char>, approved: bool)
    -> SubmissionView {
    SubmissionView {
        id,
        op: OpView::PatchApproval {
            id: approval_id,
            decision: Decision::spec_from_approved(approved),
        },
    }
}

/// The submission that asks the agent to stop its current action.
pub open spec fn interrupt_view(id: Seq<char>) -> SubmissionView {
    SubmissionView { id, op: OpView::Interrupt }
}

/// The submission that asks the agent to end the session.
pub open spec fn shutdown_view(id: Seq<char>) -> SubmissionView {
    SubmissionView { id, op: OpView::Shutdown }
}

/// What `close_session` hands back.
#[derive(Debug)]
pub struct Closing<P> {
    /// How the enqueueing of the shutdown submission went. A failure here is
    /// to be logged, not reported: the close itself has succeeded.
    pub shutdown: Result<(), ClientError>,
    /// The process to terminate, if the client still held one.
    pub process: Option<P>,
}

/// What the queue's answer to a line means for the caller of a send: a
/// line that was not taken means that the session is closed.
pub fn queue_outcome(answer: Result<(), String>) -> (r: Result<(), ClientError>)
    ensures
        answer is Ok ==> r is Ok,
        answer is Err ==> (r matches Err(e) && e is SessionClosed),
{
    match answer {
        Ok(()) => Ok(()),
        Err(_) => Err(ClientError::SessionClosed),
    }
}

/// What a running session holds: the process and the queue, together.
struct Live<P> {
    process: P,
    stdin_tx: UnboundedSender<String>,
}

/// The client side of one session with an agent process.
///
/// The process handle and the sending side of the queue are held together
/// or not at all: both from creation to close, neither from then on.
pub struct CodexClient<P> {
    session_id: String,
    live: Option<Live<P>>,
    config: CodexConfig,
    sent: Ghost<Seq<Seq<char>>>,
}

impl<P> View for CodexClient<P> {
    type V = ClientView;

    closed spec fn view(&self) -> ClientView {
        ClientView {
            session_id: self.session_id@,
            config: self.config@,
            holds_process: self.live is Some,
            holds_queue: self.live is Some,
            sent: self.sent@,
        }
    }
}

impl<P> CodexClient<P> {
    /// The process handle that the client holds.
    pub closed spec fn spec_process(&self) -> Option<P> {
        match self.live {
            Some(live) => Some(live.process),
            None => None,
        }
    }

    /// A client holds its process and its queue together, or neither.
    pub proof fn lemma_holds_both_or_neither(&self)
        ensures
            self@.holds_process == self@.holds_queue,
            self@.holds_process == (self.spec_process() is Some),
    {
    }

    /// The client of a session whose process has been started and whose
    /// pumps own the other ends of the pipes and of the queue.
    pub fn new(
        session_id: String,
        config: CodexConfig,
        process: P,
        stdin_tx: UnboundedSender<String>,
    ) -> (client: Self)
        ensures
            client@ == (ClientView {
                session_id: session_id@,
                config: config@,
                holds_process: true,
                holds_queue: true,
                sent: Seq::empty(),
            }),
            client.spec_process() == Some(process),
            client@.lines_are_whole(),
    {
        CodexClient {
            session_id,
            live: Some(Live { process, stdin_tx }),
            config,
            sent: Ghost(Seq::empty()),
        }
    }

    /// The identifier of the session.
    pub fn session_id(&self) -> (r: &str)
        ensures
            r@ == self@.session_id,
    {
        self.session_id.as_str()
    }

    /// The configuration that the session was created with.
    pub fn config(&self) -> (r: &CodexConfig)
        ensures
            r@ == self@.config,
    {
        &self.config
    }

    /// Whether the client holds both its process and its queue.
    pub fn is_active(&self) -> (b: bool)
        ensures
            b == self@.is_active(),
    {
        self.live.is_some()
    }

    /// The state of the session: `Running` from creation to close, `Closed`
    /// from then on. That the process has exited by itself does not show
    /// here.
    pub fn state(&self) -> (s: SessionState)
        ensures
            s == self@.state(),
            s == SessionState::Running || s == SessionState::Closed,
            s == SessionState::Closed <==> !self@.holds_process && !self@.holds_queue,
    {
        if self.is_active() {
            SessionState::Running
        } else {
            SessionState::Closed
        }
    }

    /// Encodes a submission and puts the line on the outbound queue.
    ///
    /// On a client without a queue this fails with `SessionClosed`, and
    /// nothing is encoded or sent. A line that the queue takes holds no
    /// line feed, so the lines sent stay whole.
    pub fn send_submission(&mut self, submission: Submission) -> (r: Result<(), ClientError>)
        ensures
            old(self)@.send_step(submission@, final(self)@, r),
            final(self).spec_process() == old(self).spec_process(),
            old(self)@.lines_are_whole() ==> final(self)@.lines_are_whole(),
    {
        match &self.live {
            None => Err(ClientError::SessionClosed),
            Some(live) => match encode_submission(&submission) {
                Ok(line) => {
                    let ghost text = line@;
                    let r = queue_outcome(enqueue(&live.stdin_tx, line));
                    if r.is_ok() {
                        self.sent = Ghost(self.sent@.push(text));
                    }
                    r
                },
                Err(e) => Err(e),
            },
        }
    }

    /// Sends `message` as the user's input, under a fresh identifier.
    pub fn send_user_input(&mut self, message: String) -> (r: Result<(), ClientError>)
        ensures
            exists|id: Seq<char>| #[trigger]
                is_hyphenated_uuid(id) && old(self)@.send_step(
                    user_input_view(id, message@),
                    final(self)@,
                    r,
                ),
            final(self).spec_process() == old(self).spec_process(),
            old(self)@.lines_are_whole() ==> final(self)@.lines_are_whole(),
    {
        self.send_submission(Submission::user_input(fresh_id(), message))
    }

    /// Allows or denies the command `approval_id`, under a fresh identifier.
    pub fn send_exec_approval(&mut self, approval_id: String, approved: bool) -> (r: Result<
        (),
        ClientError,
    >)
        ensures
            exists|id: Seq<char>| #[trigger]
                is_hyphenated_uuid(id) && old(self)@.send_step(
                    exec_approval_view(id, approval_id@, approved),
                    final(self)@,
                    r,
                ),
            final(self).spec_process() == old(self).spec_process(),
            old(self)@.lines_are_whole() ==> final(self)@.lines_are_whole(),
    {
        self.send_submission(Submission::exec_approval(fresh_id(), approval_id, approved))
    }

    /// Allows or denies the patch `approval_id`, under a fresh identifier.
    pub fn send_patch_approval(&mut self, approval_id: String, approved: bool) -> (r: Result<
        (),
        ClientError,
    >)
        ensures
            exists|id: Seq<char>| #[trigger]
                is_hyphenated_uuid(id) && old(self)@.send_step(
                    patch_approval_view(id, approval_id@, approved),
                    final(self)@,
                    r,
                ),
            final(self).spec_process() == old(self).spec_process(),
            old(self)@.lines_are_whole() ==> final(self)@.lines_are_whole(),
    {
        self.send_submission(Submission::patch_approval(fresh_id(), approval_id, approved))
    }

    /// Asks the agent to stop its current action.
    pub fn interrupt(&mut self) -> (r: Result<(), ClientError>)
        ensures
            exists|id: Seq<char>| #[trigger]
                is_hyphenated_uuid(id) && old(self)@.send_step(
                    interrupt_view(id),
                    final(self)@,
                    r,
                ),
            final(self).spec_process() == old(self).spec_process(),
            old(self)@.lines_are_whole() ==> final(self)@.lines_are_whole(),
    {
        self.send_submission(Submission::interrupt(fresh_id()))
    }

    /// Closes the session.
    ///
    /// First a shutdown submission is put on the queue, if that is still
    /// possible. Then the sending side of the queue is dropped, so that the
    /// writer pump ends once it has delivered what is queued. The process
    /// handle is given up to the caller, who terminates the process: always,
    /// whatever became of the shutdown submission. The client is left
    /// holding nothing; a second close hands back no process.
    pub fn close_session(&mut self) -> (closing: Closing<P>)
        ensures
            exists|id: Seq<char>| #[trigger]
                is_hyphenated_uuid(id) && old(self)@.close_step(
                    id,
                    final(self)@,
                    closing.shutdown,
                ),
            closing.process == old(self).spec_process(),
            final(self).spec_process() is None,
            old(self)@.lines_are_whole() ==> final(self)@.lines_are_whole(),
    {
        let shutdown = self.send_submission(Submission::shutdown(fresh_id()));
        let process = match self.live.take() {
            Some(live) => Some(live.process),
            None => None,
        };
        Closing { shutdown, process }
    }

    /// Closes the session; another name for `close_session`.
    pub fn shutdown(&mut self) -> (closing: Closing<P>)
        ensures
            exists|id: Seq<char>| #[trigger]
                is_hyphenated_uuid(id) && old(self)@.close_step(
                    id,
                    final(self)@,
                    closing.shutdown,
                ),
            closing.process == old(self).spec_process(),
            final(self).spec_process() is None,
            old(self)@.lines_are_whole() ==> final(self)@.lines_are_whole(),
    {
        self.close_session()
    }
}

/// Once closed, a session sends nothing more: every send fails with
/// `SessionClosed` and leaves the client, and with it the lines sent, as
/// they were.
pub proof fn lemma_closed_session_refuses_sends(
    client: ClientView,
    submission: SubmissionView,
    after: ClientView,
    r: Result<(), ClientError>,
)
    requires
        client.closed().send_step(submission, after, r),
    ensures
        r matches Err(e) && e is SessionClosed,
        after == client.closed(),
        after.sent == client.sent,
{
}

/// No step leaves `Closed`, and the exit of the process moves no state:
/// a session whose process has crashed is `Running` until it is closed.
pub proof fn lemma_closed_is_terminal(state: SessionState, step: SessionStep)
    ensures
        SessionState::Closed.spec_after(step) == SessionState::Closed,
        state.spec_after(SessionStep::ProcessExited) == state,
        state.spec_after(SessionStep::SubmissionQueued) == state,
{
}

/// What `close_session` does to a running client is the two steps from
/// `Running` to `Closed`; on a closed client it is no step at all.
pub proof fn lemma_close_walks_to_closed(client: ClientView)
    ensures
        client.is_active() ==> client.closed().state() == client.state().spec_after(
            SessionStep::CloseCalled,
        ).spec_after(SessionStep::ProcessSignalled),
        !client.is_active() ==> client.closed().state() == client.state(),
        client.closed().state() == SessionState::Closed,
{
}

/// `Closed` is final: closing a closed session sends nothing, reports
/// `SessionClosed` for the shutdown submission, and leaves it closed.
pub proof fn lemma_closed_is_final(
    client: ClientView,
    id: Seq<char>,
    after: ClientView,
    shutdown: Result<(), ClientError>,
)
    requires
        client.closed().close_step(id, after, shutdown),
    ensures
        after == client.closed(),
        after.state() == SessionState::Closed,
        shutdown matches Err(e) && e is SessionClosed,
{
}

/// Closing always ends in `Closed`, whatever became of the shutdown
/// submission, and sends at most that one line.
pub proof fn lemma_close_always_closes(
    client: ClientView,
    id: Seq<char>,
    after: ClientView,
    shutdown: Result<(), ClientError>,
)
    requires
        client.close_step(id, after, shutdown),
    ensures
        after.state() == SessionState::Closed,
        !after.holds_process && !after.holds_queue,
        after.session_id == client.session_id,
        after.config == client.config,
        shutdown is Ok ==> after.sent == client.sent.push(
            spec_encode_submission(shutdown_view(id)),
        ),
        shutdown is Err ==> after.sent == client.sent,
{
}

/// A submission that the queue took is still ahead of the shutdown
/// submission when the session is closed right after it: the queue has
/// taken the submission's line first and the shutdown line second, and
/// nothing else.
pub proof fn lemma_shutdown_follows_what_was_sent(
    client: ClientView,
    submission: SubmissionView,
    sent: ClientView,
    id: Seq<char>,
    after: ClientView,
)
    requires
        client.send_step(submission, sent, Ok(())),
        sent.close_step(id, after, Ok(())),
    ensures
        after.sent == client.sent + seq![
            spec_encode_submission(submission),
            spec_encode_submission(shutdown_view(id)),
        ],
        after.state() == SessionState::Closed,
{
}

/// Any number of sends that succeed put exactly that many lines on the
/// queue: one whole line for each send, the encoding of its submission, in
/// the order in which the sends took their turns. No line is lost, split,
/// merged or sent twice, and nothing else of the client changes.
pub proof fn lemma_each_send_queues_one_line(
    client: ClientView,
    submissions: Seq<SubmissionView>,
    after: ClientView,
)
    requires
        client.sends_in_turn(submissions, after),
    ensures
        after == client.after_sending_all(submissions),
        after.sent.len() == client.sent.len() + submissions.len(),
        forall|i: int|
            0 <= i < client.sent.len() ==> #[trigger] after.sent[i] == client.sent[i],
        forall|i: int|
            #![trigger submissions[i]]
            0 <= i < submissions.len() ==> after.sent[client.sent.len() + i]
                == spec_encode_submission(submissions[i]) && !has_line_break(
                spec_encode_submission(submissions[i]),
            ),
    decreases submissions.len(),
{
    if submissions.len() == 0 {
        assert(after.sent =~= client.after_sending_all(submissions).sent);
    } else {
        let front = submissions.drop_last();
        let before_last = choose|before_last: ClientView|
            client.sends_in_turn(front, before_last) && #[trigger] before_last.send_step(
                submissions.last(),
                after,
                Ok(()),
            );
        lemma_each_send_queues_one_line(client, front, before_last);
        assert(after.sent =~= client.after_sending_all(submissions).sent);
        assert forall|i: int| #![trigger submissions[i]] 0 <= i < submissions.len() implies
            !has_line_break(spec_encode_submission(submissions[i])) by {
            if i < front.len() {
                assert(front[i] == submissions[i]);
            }
        }
    }
}

/// What a client has sent reaches the pipe as that many lines and nothing
/// else, where no write fails: for each line in turn the writer pump
/// writes its text, which holds no line feed, then one line feed, then
/// flushes, before it takes the next.
pub proof fn lemma_sent_lines_reach_the_pipe_whole(client: ClientView)
    requires
        client.lines_are_whole(),
    ensures
        spec_writer_run(WriterState::Idle, healthy_events(client.sent)).1.len() == 4
            * client.sent.len(),
        forall|k: int|
            #![trigger client.sent[k]]
            0 <= k < client.sent.len() ==> {
                let actions = spec_writer_run(WriterState::Idle, healthy_events(client.sent)).1;
                &&& !has_line_break(client.sent[k])
                &&& actions[4 * k] == WriterActionView::Write(client.sent[k])
                &&& actions[4 * k + 1] == WriterActionView::WriteNewline
                &&& actions[4 * k + 2] == WriterActionView::Flush
                &&& actions[4 * k + 3] == WriterActionView::Receive
            },
{
    lemma_writer_delivers_whole_lines(client.sent);
}

} // verus!
