use codex_client::codec::{decode_event, encode_op, encode_submission, frame_submission};
use codex_client::protocol::{InputItem, Op, Decision, Submission};
use codex_client::text::{is_text, join, prefixed};

fn id() -> String {
    "sub-1".to_string()
}

#[test]
fn user_input_on_the_wire() {
    let s = Submission::user_input(id(), "hello".to_string());
    assert_eq!(
        encode_submission(&s).unwrap(),
        "{\"id\":\"sub-1\",\"op\":{\"type\":\"user_input\",\"items\":[{\"type\":\"text\",\"text\":\"hello\"}]}}"
    );
}

#[test]
fn several_items_are_separated_by_commas() {
    let s = Submission {
        id: id(),
        op: Op::UserInput {
            items: vec![
                InputItem::Text { text: "a".to_string() },
                InputItem::Text { text: "b".to_string() },
                InputItem::Text { text: "c".to_string() },
            ],
        },
    };
    assert_eq!(
        encode_submission(&s).unwrap(),
        "{\"id\":\"sub-1\",\"op\":{\"type\":\"user_input\",\"items\":[{\"type\":\"text\",\"text\":\"a\"},{\"type\":\"text\",\"text\":\"b\"},{\"type\":\"text\",\"text\":\"c\"}]}}"
    );
}

#[test]
fn no_items_give_an_empty_array() {
    let s = Submission { id: id(), op: Op::UserInput { items: Vec::new() } };
    assert_eq!(
        encode_submission(&s).unwrap(),
        "{\"id\":\"sub-1\",\"op\":{\"type\":\"user_input\",\"items\":[]}}"
    );
}

#[test]
fn approvals_on_the_wire() {
    let s = Submission::exec_approval(id(), "call-7".to_string(), true);
    assert_eq!(
        encode_submission(&s).unwrap(),
        "{\"id\":\"sub-1\",\"op\":{\"type\":\"exec_approval\",\"id\":\"call-7\",\"decision\":\"allow\"}}"
    );
    let s = Submission::exec_approval(id(), "call-7".to_string(), false);
    assert_eq!(
        encode_submission(&s).unwrap(),
        "{\"id\":\"sub-1\",\"op\":{\"type\":\"exec_approval\",\"id\":\"call-7\",\"decision\":\"deny\"}}"
    );
    let s = Submission::patch_approval(id(), "patch-2".to_string(), true);
    assert_eq!(
        encode_submission(&s).unwrap(),
        "{\"id\":\"sub-1\",\"op\":{\"type\":\"patch_approval\",\"id\":\"patch-2\",\"decision\":\"allow\"}}"
    );
    let s = Submission::patch_approval(id(), "patch-2".to_string(), false);
    assert_eq!(
        encode_submission(&s).unwrap(),
        "{\"id\":\"sub-1\",\"op\":{\"type\":\"patch_approval\",\"id\":\"patch-2\",\"decision\":\"deny\"}}"
    );
}

#[test]
fn interrupt_and_shutdown_on_the_wire() {
    assert_eq!(
        encode_submission(&Submission::interrupt(id())).unwrap(),
        "{\"id\":\"sub-1\",\"op\":{\"type\":\"interrupt\"}}"
    );
    assert_eq!(
        encode_submission(&Submission::shutdown(id())).unwrap(),
        "{\"id\":\"sub-1\",\"op\":{\"type\":\"shutdown\"}}"
    );
    assert_eq!(encode_op(&Op::Interrupt).unwrap(), "{\"type\":\"interrupt\"}");
    assert_eq!(encode_op(&Op::Shutdown).unwrap(), "{\"type\":\"shutdown\"}");
}

#[test]
fn strings_are_escaped_and_lines_stay_whole() {
    let s = Submission::user_input("a\"b".to_string(), "line one\nline \"two\"\\\t\r".to_string());
    let line = encode_submission(&s).unwrap();
    assert!(!line.contains('\n'));
    assert!(!line.contains('\r'));
    assert_eq!(
        line,
        "{\"id\":\"a\\\"b\",\"op\":{\"type\":\"user_input\",\"items\":[{\"type\":\"text\",\"text\":\"line one\\nline \\\"two\\\"\\\\\\t\\r\"}]}}"
    );
}

#[test]
fn control_characters_are_written_in_hexadecimal() {
    let text = "\u{0}\u{1}\u{8}\u{b}\u{c}\u{e}\u{10}\u{1a}\u{1f} \u{7f}/é\u{2028}";
    let s = Submission::user_input("i".to_string(), text.to_string());
    assert_eq!(
        encode_submission(&s).unwrap(),
        "{\"id\":\"i\",\"op\":{\"type\":\"user_input\",\"items\":[{\"type\":\"text\",\"text\":\"\\u0000\\u0001\\b\\u000b\\f\\u000e\\u0010\\u001a\\u001f \u{7f}/é\u{2028}\"}]}}"
    );
}

#[test]
fn every_submission_can_be_written() {
    let mut all = String::new();
    for code in 0u32..0x300 {
        if let Some(c) = char::from_u32(code) {
            all.push(c);
        }
    }
    all.push('\u{FFFF}');
    all.push('\u{10FFFF}');
    for s in [
        Submission::user_input(all.clone(), all.clone()),
        Submission::exec_approval(all.clone(), all.clone(), true),
        Submission::patch_approval(all.clone(), all.clone(), false),
        Submission::interrupt(all.clone()),
        Submission::shutdown(all.clone()),
    ] {
        let line = encode_submission(&s).unwrap();
        assert!(!line.contains('\n'));
        let value: serde_json::Value = serde_json::from_str(&line).unwrap();
        assert_eq!(value.get("id").and_then(|v| v.as_str()), Some(all.as_str()));
    }
}

#[test]
fn approval_ids_are_escaped() {
    let s = Submission::exec_approval(id(), "x\ny".to_string(), true);
    let line = encode_submission(&s).unwrap();
    assert!(!line.contains('\n'));
    assert_eq!(
        line,
        "{\"id\":\"sub-1\",\"op\":{\"type\":\"exec_approval\",\"id\":\"x\\ny\",\"decision\":\"allow\"}}"
    );
}

fn round_trip(s: Submission, kind: &str) {
    let want_id = s.id.clone();
    assert_eq!(s.op.kind(), kind);
    let line = encode_submission(&s).unwrap();
    let value: serde_json::Value = serde_json::from_str(&line).unwrap();
    assert_eq!(value.get("id").and_then(|v| v.as_str()), Some(want_id.as_str()));
    let op = value.get("op").unwrap();
    assert_eq!(op.get("type").and_then(|v| v.as_str()), Some(kind));
    let again = decode_event(line.clone()).unwrap();
    assert_eq!(again.as_str(), line);
}

#[test]
fn encoding_then_decoding_keeps_id_and_kind() {
    round_trip(Submission::user_input("id \"1\"".to_string(), "héllo\n".to_string()), "user_input");
    round_trip(Submission::exec_approval("2".to_string(), "a".to_string(), true), "exec_approval");
    round_trip(
        Submission::patch_approval("3\\".to_string(), "b".to_string(), false),
        "patch_approval",
    );
    round_trip(Submission::interrupt("\u{1}4".to_string()), "interrupt");
    round_trip(Submission::shutdown(String::new()), "shutdown");
}

#[test]
fn round_trip_keeps_the_payload() {
    let s = Submission::user_input("i".to_string(), "tab\there \u{1F600} \"q\"".to_string());
    let line = encode_submission(&s).unwrap();
    let value: serde_json::Value = serde_json::from_str(&line).unwrap();
    let text = value.get("op").unwrap().get("items").unwrap().get(0).unwrap().get("text");
    assert_eq!(text.and_then(|v| v.as_str()), Some("tab\there \u{1F600} \"q\""));
    let s = Submission::exec_approval("i".to_string(), "call".to_string(), false);
    let line = encode_submission(&s).unwrap();
    let value: serde_json::Value = serde_json::from_str(&line).unwrap();
    let op = value.get("op").unwrap();
    assert_eq!(op.get("id").and_then(|v| v.as_str()), Some("call"));
    assert_eq!(op.get("decision").and_then(|v| v.as_str()), Some("deny"));
}

#[test]
fn frame_wraps_id_and_operation() {
    assert_eq!(frame_submission("\"x\"", "{}"), "{\"id\":\"x\",\"op\":{}}");
}

#[test]
fn decisions_have_two_values() {
    assert_eq!(Decision::from_approved(true), Decision::Allow);
    assert_eq!(Decision::from_approved(false), Decision::Deny);
    assert_eq!(Decision::Allow.name(), "allow");
    assert_eq!(Decision::Deny.name(), "deny");
}

#[test]
fn json_objects_become_events() {
    for line in [
        "{\"id\":\"1\",\"msg\":{\"type\":\"task_started\"}}",
        "{}",
        "  {\"a\": null}  ",
        "{\"nested\":{\"list\":[1,2,{\"x\":\"y\"}]},\"n\":-1.5e3}",
    ] {
        let event = decode_event(line.to_string()).unwrap();
        assert_eq!(event.as_str(), line);
        assert_eq!(event.into_text(), line);
    }
}

#[test]
fn malformed_lines_come_back_in_the_warning() {
    for line in ["not-json", "", "{", "{\"a\":1} trailing", "{'a':1}", "{\"a\":1}{\"b\":2}"] {
        let warning = decode_event(line.to_string()).unwrap_err();
        assert_eq!(warning.line, line);
    }
}

#[test]
fn json_that_is_no_object_is_no_event() {
    for line in ["42", "\"text\"", "null", "true", "[1,2,3]", "[{\"a\":1}]"] {
        let warning = decode_event(line.to_string()).unwrap_err();
        assert_eq!(warning.line, line);
    }
}

#[test]
fn text_helpers() {
    assert_eq!(prefixed("model=", "gpt-5"), "model=gpt-5");
    assert_eq!(prefixed("", ""), "");
    assert!(is_text("read-only", "read-only"));
    assert!(!is_text("read-only ", "read-only"));
    assert_eq!(join(&Vec::new(), ","), "");
    assert_eq!(join(&vec!["a".to_string()], ","), "a");
    assert_eq!(join(&vec!["a".to_string(), "".to_string(), "c".to_string()], ", "), "a, , c");
}

#[test]
fn every_control_character_has_its_escape() {
    for code in 0u32..0x20 {
        let c = char::from_u32(code).unwrap();
        let escape = match code {
            0x08 => "\\b".to_string(),
            0x09 => "\\t".to_string(),
            0x0a => "\\n".to_string(),
            0x0c => "\\f".to_string(),
            0x0d => "\\r".to_string(),
            _ => format!("\\u{:04x}", code),
        };
        let s = Submission::interrupt(format!("a{}b", c));
        assert_eq!(
            encode_submission(&s).unwrap(),
            format!("{{\"id\":\"a{}b\",\"op\":{{\"type\":\"interrupt\"}}}}", escape)
        );
    }
    for c in [' ', '!', '#', '/', '[', ']', '~', '\u{7f}', '\u{80}', '\u{9f}', 'é', '\u{1F600}'] {
        let s = Submission::interrupt(format!("a{}b", c));
        assert_eq!(
            encode_submission(&s).unwrap(),
            format!("{{\"id\":\"a{}b\",\"op\":{{\"type\":\"interrupt\"}}}}", c)
        );
    }
}

#[test]
fn lines_differ_where_identifier_or_kind_differ() {
    let ids = ["", "a", "a\"", "a\\", "\"", "\\\"", ",\"op\":{\"type\":\"shutdown\"}}", "\n", "n"];
    let mut lines: Vec<String> = Vec::new();
    for id in ids {
        lines.push(encode_submission(&Submission::interrupt(id.to_string())).unwrap());
        lines.push(encode_submission(&Submission::shutdown(id.to_string())).unwrap());
        lines.push(encode_submission(&Submission::user_input(id.to_string(), "x".to_string())).unwrap());
        lines.push(
            encode_submission(&Submission::exec_approval(id.to_string(), "x".to_string(), true))
                .unwrap(),
        );
        lines.push(
            encode_submission(&Submission::patch_approval(id.to_string(), "x".to_string(), true))
                .unwrap(),
        );
    }
    for i in 0..lines.len() {
        for j in 0..lines.len() {
            if i != j {
                assert_ne!(lines[i], lines[j]);
            }
        }
    }
}
