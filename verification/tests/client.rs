use codex_client::client::{queue_outcome, CodexClient, SessionState, SessionStep};
use codex_client::command::CodexConfig;
use codex_client::error::ClientError;
use codex_client::protocol::Submission;
use codex_client::pump::{writer_start, writer_step, WriterAction, WriterEvent, WriterExit};
use tokio::sync::mpsc::error::TryRecvError;
use tokio::sync::mpsc::{unbounded_channel, UnboundedReceiver};

fn config() -> CodexConfig {
    CodexConfig {
        codex_path: Some("codex".to_string()),
        model: "gpt-5".to_string(),
        approval_policy: String::new(),
        sandbox_mode: String::new(),
        use_oss: false,
        working_directory: String::new(),
        custom_args: None,
    }
}

/// A client whose process handle is a number and whose queue ends here.
fn session() -> (CodexClient<u32>, UnboundedReceiver<String>) {
    let (tx, rx) = unbounded_channel::<String>();
    (CodexClient::new("session-1".to_string(), config(), 4242, tx), rx)
}

fn parsed(line: &str) -> serde_json::Value {
    serde_json::from_str(line).unwrap()
}

fn field<'a>(value: &'a serde_json::Value, path: &[&str]) -> &'a str {
    let mut v = value;
    for key in path {
        v = v.get(*key).unwrap();
    }
    v.as_str().unwrap()
}

fn is_uuid(id: &str) -> bool {
    id.len() == 36
        && id.chars().enumerate().all(|(i, c)| match i {
            8 | 13 | 18 | 23 => c == '-',
            _ => c.is_ascii_digit() || ('a'..='f').contains(&c),
        })
}

#[test]
fn a_new_client_is_running() {
    let (client, _rx) = session();
    assert!(client.is_active());
    assert_eq!(client.state(), SessionState::Running);
    assert_eq!(client.session_id(), "session-1");
    assert_eq!(client.config().model, "gpt-5");
}

#[test]
fn user_input_reaches_the_queue() {
    let (mut client, mut rx) = session();
    client.send_user_input("hello".to_string()).unwrap();
    let line = rx.try_recv().unwrap();
    assert!(!line.contains('\n'));
    let v = parsed(&line);
    assert!(is_uuid(field(&v, &["id"])));
    assert_eq!(field(&v, &["op", "type"]), "user_input");
    let items = v.get("op").unwrap().get("items").unwrap().as_array().unwrap();
    assert_eq!(items.len(), 1);
    assert_eq!(field(&items[0], &["type"]), "text");
    assert_eq!(field(&items[0], &["text"]), "hello");
    assert!(matches!(rx.try_recv(), Err(TryRecvError::Empty)));
    assert!(client.is_active());
}

#[test]
fn approvals_carry_id_and_decision() {
    let (mut client, mut rx) = session();
    client.send_exec_approval("call-1".to_string(), true).unwrap();
    client.send_exec_approval("call-2".to_string(), false).unwrap();
    client.send_patch_approval("patch-1".to_string(), true).unwrap();
    client.send_patch_approval("patch-2".to_string(), false).unwrap();
    let expected = [
        ("exec_approval", "call-1", "allow"),
        ("exec_approval", "call-2", "deny"),
        ("patch_approval", "patch-1", "allow"),
        ("patch_approval", "patch-2", "deny"),
    ];
    for (kind, id, decision) in expected {
        let v = parsed(&rx.try_recv().unwrap());
        assert!(is_uuid(field(&v, &["id"])));
        assert_eq!(field(&v, &["op", "type"]), kind);
        assert_eq!(field(&v, &["op", "id"]), id);
        assert_eq!(field(&v, &["op", "decision"]), decision);
    }
}

#[test]
fn interrupt_has_no_payload() {
    let (mut client, mut rx) = session();
    client.interrupt().unwrap();
    let v = parsed(&rx.try_recv().unwrap());
    assert_eq!(field(&v, &["op", "type"]), "interrupt");
    assert_eq!(v.get("op").unwrap().as_object().unwrap().len(), 1);
}

#[test]
fn every_submission_gets_its_own_identifier() {
    let (mut client, mut rx) = session();
    client.interrupt().unwrap();
    client.interrupt().unwrap();
    let a = parsed(&rx.try_recv().unwrap());
    let b = parsed(&rx.try_recv().unwrap());
    assert_ne!(field(&a, &["id"]), field(&b, &["id"]));
}

#[test]
fn a_given_submission_is_sent_as_encoded() {
    let (mut client, mut rx) = session();
    client.send_submission(Submission::user_input("fixed".to_string(), "a\nb".to_string())).unwrap();
    assert_eq!(
        rx.try_recv().unwrap(),
        "{\"id\":\"fixed\",\"op\":{\"type\":\"user_input\",\"items\":[{\"type\":\"text\",\"text\":\"a\\nb\"}]}}"
    );
}

#[test]
fn close_sends_shutdown_after_what_was_queued_and_gives_up_the_process() {
    let (mut client, mut rx) = session();
    client.send_user_input("hello".to_string()).unwrap();
    let closing = client.close_session();
    assert!(closing.shutdown.is_ok());
    assert_eq!(closing.process, Some(4242));
    assert!(!client.is_active());
    assert_eq!(client.state(), SessionState::Closed);

    let first = parsed(&rx.try_recv().unwrap());
    assert_eq!(field(&first, &["op", "type"]), "user_input");
    let second = parsed(&rx.try_recv().unwrap());
    assert_eq!(field(&second, &["op", "type"]), "shutdown");
    assert!(is_uuid(field(&second, &["id"])));
    assert!(matches!(rx.try_recv(), Err(TryRecvError::Disconnected)));
}

#[test]
fn after_close_every_send_is_refused_and_nothing_is_queued() {
    let (mut client, mut rx) = session();
    client.close_session();
    assert_eq!(field(&parsed(&rx.try_recv().unwrap()), &["op", "type"]), "shutdown");
    assert!(matches!(rx.try_recv(), Err(TryRecvError::Disconnected)));

    assert!(matches!(
        client.send_user_input("late".to_string()),
        Err(ClientError::SessionClosed)
    ));
    assert!(matches!(
        client.send_exec_approval("a".to_string(), true),
        Err(ClientError::SessionClosed)
    ));
    assert!(matches!(
        client.send_patch_approval("a".to_string(), false),
        Err(ClientError::SessionClosed)
    ));
    assert!(matches!(client.interrupt(), Err(ClientError::SessionClosed)));
    assert!(matches!(
        client.send_submission(Submission::shutdown("x".to_string())),
        Err(ClientError::SessionClosed)
    ));
    assert!(matches!(rx.try_recv(), Err(TryRecvError::Disconnected)));
    assert!(!client.is_active());
    assert_eq!(client.session_id(), "session-1");
}

#[test]
fn a_second_close_finds_nothing_to_do() {
    let (mut client, _rx) = session();
    let first = client.close_session();
    assert_eq!(first.process, Some(4242));
    let second = client.close_session();
    assert_eq!(second.process, None);
    assert!(matches!(second.shutdown, Err(ClientError::SessionClosed)));
    assert_eq!(client.state(), SessionState::Closed);
    let third = client.shutdown();
    assert_eq!(third.process, None);
}

#[test]
fn shutdown_is_close_by_another_name() {
    let (mut client, mut rx) = session();
    let closing = client.shutdown();
    assert!(closing.shutdown.is_ok());
    assert_eq!(closing.process, Some(4242));
    assert!(!client.is_active());
    assert_eq!(field(&parsed(&rx.try_recv().unwrap()), &["op", "type"]), "shutdown");
}

#[test]
fn a_vanished_writer_means_session_closed_but_close_still_works() {
    let (mut client, rx) = session();
    drop(rx);
    assert!(matches!(client.send_user_input("x".to_string()), Err(ClientError::SessionClosed)));
    assert!(client.is_active());
    assert_eq!(client.state(), SessionState::Running);
    let closing = client.close_session();
    assert!(matches!(closing.shutdown, Err(ClientError::SessionClosed)));
    assert_eq!(closing.process, Some(4242));
    assert!(!client.is_active());
}

#[test]
fn queue_answers_map_to_results() {
    assert!(queue_outcome(Ok(())).is_ok());
    assert!(matches!(queue_outcome(Err("line".to_string())), Err(ClientError::SessionClosed)));
}

#[test]
fn many_sends_become_as_many_whole_lines_on_the_pipe() {
    let (mut client, mut rx) = session();
    let n = 25;
    for i in 0..n {
        client.send_user_input(format!("message {}\nsecond line", i)).unwrap();
    }
    client.close_session();

    let mut pipe: Vec<u8> = Vec::new();
    let mut flushes = 0;
    let (mut state, mut action) = writer_start();
    let exit = loop {
        let event = match action {
            WriterAction::Receive => match rx.try_recv() {
                Ok(line) => WriterEvent::Dequeued(line),
                Err(_) => WriterEvent::QueueClosed,
            },
            WriterAction::Write(text) => {
                pipe.extend_from_slice(text.as_bytes());
                WriterEvent::IoDone
            }
            WriterAction::WriteNewline => {
                pipe.push(b'\n');
                WriterEvent::IoDone
            }
            WriterAction::Flush => {
                assert_eq!(pipe.last(), Some(&b'\n'));
                flushes += 1;
                WriterEvent::IoDone
            }
            WriterAction::Stop(exit) => break exit,
        };
        let next = writer_step(state, event);
        state = next.0;
        action = next.1;
    };
    assert!(matches!(exit, WriterExit::QueueClosed));
    assert_eq!(flushes, n + 1);

    let text = String::from_utf8(pipe).unwrap();
    assert!(text.ends_with('\n'));
    let lines: Vec<&str> = text.lines().collect();
    assert_eq!(lines.len(), n + 1);
    for (i, line) in lines.iter().enumerate() {
        let v = parsed(line);
        if i < n {
            assert_eq!(field(&v, &["op", "type"]), "user_input");
            let items = v.get("op").unwrap().get("items").unwrap().as_array().unwrap();
            assert_eq!(field(&items[0], &["text"]), format!("message {}\nsecond line", i));
        } else {
            assert_eq!(field(&v, &["op", "type"]), "shutdown");
        }
    }
}

#[test]
fn a_session_walks_through_its_states_in_order() {
    let s = SessionState::Starting;
    let s = s.after(SessionStep::PumpsStarted);
    assert_eq!(s, SessionState::Running);
    assert_eq!(s.after(SessionStep::SubmissionQueued), SessionState::Running);
    assert_eq!(s.after(SessionStep::ProcessExited), SessionState::Running);
    assert_eq!(s.after(SessionStep::PumpsStarted), SessionState::Running);
    assert_eq!(s.after(SessionStep::ProcessSignalled), SessionState::Running);
    let s = s.after(SessionStep::CloseCalled);
    assert_eq!(s, SessionState::Closing);
    assert_eq!(s.after(SessionStep::CloseCalled), SessionState::Closing);
    let s = s.after(SessionStep::ProcessSignalled);
    assert_eq!(s, SessionState::Closed);
    for step in [
        SessionStep::PumpsStarted,
        SessionStep::SubmissionQueued,
        SessionStep::ProcessExited,
        SessionStep::CloseCalled,
        SessionStep::ProcessSignalled,
    ] {
        assert_eq!(SessionState::Closed.after(step), SessionState::Closed);
    }
    assert_eq!(SessionState::Starting.after(SessionStep::CloseCalled), SessionState::Starting);
}
