//! The line protocol: one JSON document per line, in both directions.
//!
//! The shape of a submission is fixed here, and so is the text of a JSON
//! string; the writing of strings is `serde_json`'s work, held to that text.
//! Whether a line is a JSON object is `serde_json`'s to say.

use vstd::prelude::*;
use crate::error::ClientError;
use crate::protocol::{InputItem, ItemView, Op, OpView, Decision, Submission,
    SubmissionView};
use crate::text::{join, spec_join, views};

verus! {

/// `serde_json::Error`, the error of every `serde_json` call. Nothing is read
/// from it.
#[verifier::external_type_specification]
#[verifier::external_body]
pub struct ExJsonError(serde_json::Error);

/// The lower-case hexadecimal digit for a number below sixteen.
pub open spec fn hex_digit(n: u32) -> char {
    seq!['0', '1', '2', '3', '4', '5', '6', '7', '8', '9', 'a', 'b', 'c', 'd', 'e', 'f'][n as int]
}

/// One character inside a JSON string. A double quote and a backslash get a
/// backslash before them. A character below U+0020 is written as `\b`,
/// `\t`, `\n`, `\f` or `\r` where JSON has such a short form, else as
/// `\u00` and its two hexadecimal digits. Every other character stands for
/// itself.
pub open spec fn json_escape_char(c: char) -> Seq<char> {
    if c == '"' {
        seq!['\\', '"']
    } else if c == '\\' {
        seq!['\\', '\\']
    } else if c == '\u{8}' {
        seq!['\\', 'b']
    } else if c == '\t' {
        seq!['\\', 't']
    } else if c == '\n' {
        seq!['\\', 'n']
    } else if c == '\u{c}' {
        seq!['\\', 'f']
    } else if c == '\r' {
        seq!['\\', 'r']
    } else if (c as u32) < 32 {
        seq!['\\', 'u', '0', '0', hex_digit((c as u32) / 16), hex_digit((c as u32) % 16)]
    } else {
        seq![c]
    }
}

/// The characters of `s`, each as it stands inside a JSON string.
pub open spec fn json_escape(s: Seq<char>) -> Seq<char>
    decreases s.len(),
{
    if s.len() == 0 {
        Seq::empty()
    } else {
        json_escape(s.drop_last()) + json_escape_char(s.last())
    }
}

/// The JSON string literal for a string: its characters, escaped, between
/// two double quotes.
pub open spec fn json_string_text(s: Seq<char>) -> Seq<char> {
    seq!['"'] + json_escape(s) + seq!['"']
}

/// Whether `serde_json::from_str` reads the whole of a text as one JSON
/// value, and that value is an object.
pub uninterp spec fn is_json_object(line: Seq<char>) -> bool;

/// Whether a text holds a line feed.
pub open spec fn has_line_break(s: Seq<char>) -> bool {
    exists|i: int| 0 <= i < s.len() && s[i] == '\n'
}

/// `serde_json::to_string` on a string slice. It always succeeds: a string
/// has no `Serialize` impl that could fail and no map keys, and the writer
/// is a vector in memory. The result is the JSON string literal for `s`, as
/// the compact writer and its table of escapes give it.
#[verifier::external_body]
fn quote_json(s: &str) -> (r: Result<String, serde_json::Error>)
    ensures
        r is Ok,
        r matches Ok(t) ==> t@ == json_string_text(s@),
{
    serde_json::to_string(s)
}

/// `serde_json::from_str` into a `serde_json::Value`, which accepts every
/// JSON document and nothing else. Only whether it succeeded, and with the
/// variant `Object`, is kept.
#[verifier::external_body]
fn parses_as_object(line: &str) -> (b: bool)
    ensures
        b == is_json_object(line@),
{
    matches!(serde_json::from_str::<serde_json::Value>(line), Ok(serde_json::Value::Object(_)))
}

/// Two texts without a line feed, put together, hold none either.
pub proof fn lemma_concat_has_no_line_break(a: Seq<char>, b: Seq<char>)
    requires
        !has_line_break(a),
        !has_line_break(b),
    ensures
        !has_line_break(a + b),
{
    assert forall|i: int| 0 <= i < (a + b).len() implies (a + b)[i] != '\n' by {
        if i < a.len() {
        } else {
        }
    }
}

/// A JSON string literal holds no line feed, whatever the string: a line
/// feed in the string is written as a backslash and an `n`.
pub proof fn lemma_json_string_has_no_line_break(s: Seq<char>)
    ensures
        !has_line_break(json_string_text(s)),
{
    lemma_json_escape_has_no_line_break(s);
    lemma_concat_has_no_line_break(seq!['"'], json_escape(s));
    lemma_concat_has_no_line_break(seq!['"'] + json_escape(s), seq!['"']);
}

proof fn lemma_json_escape_has_no_line_break(s: Seq<char>)
    ensures
        !has_line_break(json_escape(s)),
    decreases s.len(),
{
    if s.len() > 0 {
        lemma_json_escape_has_no_line_break(s.drop_last());
        let c = s.last();
        if (c as u32) < 32 {
            lemma_hex_digit_is_a_digit((c as u32) / 16);
            lemma_hex_digit_is_a_digit((c as u32) % 16);
        }
        assert(!has_line_break(json_escape_char(c)));
        lemma_concat_has_no_line_break(json_escape(s.drop_last()), json_escape_char(c));
    }
}

/// A hexadecimal digit is a decimal digit or one of `a` to `f`.
proof fn lemma_hex_digit_is_a_digit(n: u32)
    requires
        n < 16,
    ensures
        ('0' <= hex_digit(n) && hex_digit(n) <= '9') || ('a' <= hex_digit(n) && hex_digit(n)
            <= 'f'),
{
}

/// A line under construction: text that holds no line feed.
struct LineBuilder {
    text: String,
}

impl LineBuilder {
    spec fn wf(&self) -> bool {
        !has_line_break(self.text@)
    }

    fn new() -> (b: LineBuilder)
        ensures
            b.wf(),
            b.text@ == Seq::<char>::empty(),
    {
        LineBuilder { text: String::new() }
    }

    fn put(&mut self, piece: &str)
        requires
            old(self).wf(),
            !has_line_break(piece@),
        ensures
            final(self).wf(),
            final(self).text@ == old(self).text@ + piece@,
    {
        proof {
            lemma_concat_has_no_line_break(self.text@, piece@);
        }
        self.text.append(piece);
    }
}

/// The opening of a tagged object: `{"type":"<kind>"`.
pub open spec fn spec_tagged(kind: Seq<char>) -> Seq<char> {
    "{\"type\":\""@ + kind + "\""@
}

/// An input block on the wire.
pub open spec fn spec_encode_item(item: ItemView) -> Seq<char> {
    match item {
        ItemView::Text { text } => spec_tagged("text"@) + ",\"text\":"@ + json_string_text(text)
            + "}"@,
    }
}

/// Input blocks on the wire, in order, with a comma between each two.
pub open spec fn spec_encode_items(items: Seq<ItemView>) -> Seq<char> {
    spec_join(Seq::new(items.len(), |i: int| spec_encode_item(items[i])), ","@)
}

/// An approval on the wire: the tag, the approval's id, the decision.
pub open spec fn spec_encode_approval(
    kind: Seq<char>,
    id: Seq<char>,
    decision: Decision,
) -> Seq<char> {
    spec_tagged(kind) + ",\"id\":"@ + json_string_text(id) + ",\"decision\":\""@
        + decision.spec_name() + "\"}"@
}

/// An operation on the wire: an object whose `type` is the operation's
/// kind, followed by the fields of that kind.
pub open spec fn spec_encode_op(op: OpView) -> Seq<char> {
    match op {
        OpView::UserInput { items } => spec_tagged(op.kind()) + ",\"items\":["@
            + spec_encode_items(items) + "]}"@,
        OpView::ExecApproval { id, decision } => spec_encode_approval(op.kind(), id, decision),
        OpView::PatchApproval { id, decision } => spec_encode_approval(op.kind(), id, decision),
        OpView::Interrupt => spec_tagged(op.kind()) + "}"@,
        OpView::Shutdown => spec_tagged(op.kind()) + "}"@,
    }
}

/// A submission on the wire: `{"id":<id>,"op":<operation>}`.
pub open spec fn spec_encode_submission(s: SubmissionView) -> Seq<char> {
    "{\"id\":"@ + json_string_text(s.id) + ",\"op\":"@ + spec_encode_op(s.op) + "}"@
}

/// Texts without a line feed, joined by a separator without one, hold none.
pub proof fn lemma_join_has_no_line_break(parts: Seq<Seq<char>>, sep: Seq<char>)
    requires
        forall|i: int| 0 <= i < parts.len() ==> !has_line_break(#[trigger] parts[i]),
        !has_line_break(sep),
    ensures
        !has_line_break(spec_join(parts, sep)),
    decreases parts.len(),
{
    if parts.len() >= 2 {
        let front = parts.drop_last();
        assert forall|i: int| 0 <= i < front.len() implies !has_line_break(
            #[trigger] front[i],
        ) by {
        }
        lemma_join_has_no_line_break(front, sep);
        lemma_concat_has_no_line_break(spec_join(front, sep), sep);
        lemma_concat_has_no_line_break(spec_join(front, sep) + sep, parts.last());
    }
}

/// Writes the opening of a tagged object.
fn open_tagged(kind: &str) -> (b: LineBuilder)
    requires
        !has_line_break(kind@),
    ensures
        b.wf(),
        b.text@ == spec_tagged(kind@),
{
    proof {
        reveal_strlit("{\"type\":\"");
        reveal_strlit("\"");
    }
    let mut b = LineBuilder::new();
    b.put("{\"type\":\"");
    b.put(kind);
    b.put("\"");
    b
}

/// Writes one input block.
fn encode_item(item: &InputItem) -> (r: Result<String, ClientError>)
    ensures
        r matches Ok(t) && t@ == spec_encode_item(item@) && !has_line_break(t@),
{
    match item {
        InputItem::Text { text } => {
            match quote_json(text.as_str()) {
                Ok(quoted) => {
                    proof {
                        lemma_json_string_has_no_line_break(text@);
                        reveal_strlit("text");
                        reveal_strlit(",\"text\":");
                        reveal_strlit("}");
                    }
                    let mut b = open_tagged("text");
                    b.put(",\"text\":");
                    b.put(quoted.as_str());
                    b.put("}");
                    Ok(b.text)
                },
                Err(_) => Err(ClientError::Encode),
            }
        },
    }
}

/// Writes input blocks in order, with a comma between each two.
fn encode_items(items: &Vec<InputItem>) -> (r: Result<String, ClientError>)
    ensures
        r matches Ok(t) && t@ == spec_encode_items(crate::protocol::item_views(items@))
            && !has_line_break(t@),
{
    let ghost want = Seq::new(items@.len(), |k: int| spec_encode_item(items@[k]@));
    let mut parts: Vec<String> = Vec::new();
    let mut i: usize = 0;
    while i < items.len()
        invariant
            i <= items.len(),
            want == Seq::new(items@.len(), |k: int| spec_encode_item(items@[k]@)),
            views(parts@) == want.subrange(0, i as int),
            forall|k: int| 0 <= k < parts.len() ==> !has_line_break(#[trigger] views(parts@)[k]),
        decreases items.len() - i,
    {
        match encode_item(&items[i]) {
            Ok(part) => {
                let ghost before = views(parts@);
                parts.push(part);
                assert(views(parts@) =~= before.push(part@));
                i = i + 1;
            },
            Err(e) => {
                return Err(e);
            },
        }
    }
    proof {
        reveal_strlit(",");
        assert(views(parts@) =~= want);
        assert(want =~= Seq::new(
            crate::protocol::item_views(items@).len(),
            |k: int| spec_encode_item(crate::protocol::item_views(items@)[k]),
        ));
        lemma_join_has_no_line_break(views(parts@), ","@);
    }
    Ok(join(&parts, ","))
}

/// Writes an approval of the given kind.
fn encode_approval(kind: &str, id: &str, decision: Decision) -> (r: Result<
    String,
    ClientError,
>)
    requires
        !has_line_break(kind@),
    ensures
        r matches Ok(t) && t@ == spec_encode_approval(kind@, id@, decision) && !has_line_break(
            t@,
        ),
{
    match quote_json(id) {
        Ok(quoted) => {
            proof {
                lemma_json_string_has_no_line_break(id@);
                reveal_strlit(",\"id\":");
                reveal_strlit(",\"decision\":\"");
                reveal_strlit("\"}");
                reveal_strlit("allow");
                reveal_strlit("deny");
            }
            let mut b = open_tagged(kind);
            b.put(",\"id\":");
            b.put(quoted.as_str());
            b.put(",\"decision\":\"");
            b.put(decision.name());
            b.put("\"}");
            Ok(b.text)
        },
        Err(_) => Err(ClientError::Encode),
    }
}

/// Writes an operation as a JSON object tagged with its kind. Every
/// operation can be written: the result is always `Ok`, and it holds no
/// line feed.
pub fn encode_op(op: &Op) -> (r: Result<String, ClientError>)
    ensures
        r matches Ok(t) && t@ == spec_encode_op(op@) && !has_line_break(t@),
{
    proof {
        reveal_strlit("user_input");
        reveal_strlit("exec_approval");
        reveal_strlit("patch_approval");
        reveal_strlit("interrupt");
        reveal_strlit("shutdown");
        reveal_strlit(",\"items\":[");
        reveal_strlit("]}");
        reveal_strlit("}");
    }
    match op {
        Op::UserInput { items } => {
            match encode_items(items) {
                Ok(list) => {
                    let mut b = open_tagged(op.kind());
                    b.put(",\"items\":[");
                    b.put(list.as_str());
                    b.put("]}");
                    Ok(b.text)
                },
                Err(e) => Err(e),
            }
        },
        Op::ExecApproval { id, decision } => encode_approval(op.kind(), id.as_str(), *decision),
        Op::PatchApproval { id, decision } => encode_approval(op.kind(), id.as_str(), *decision),
        Op::Interrupt => {
            let mut b = open_tagged(op.kind());
            b.put("}");
            Ok(b.text)
        },
        Op::Shutdown => {
            let mut b = open_tagged(op.kind());
            b.put("}");
            Ok(b.text)
        },
    }
}

/// Puts an encoded id and an encoded operation into the envelope of a
/// submission.
pub fn frame_submission(id_json: &str, op_json: &str) -> (line: String)
    ensures
        line@ == "{\"id\":"@ + id_json@ + ",\"op\":"@ + op_json@ + "}"@,
        !has_line_break(id_json@) && !has_line_break(op_json@) ==> !has_line_break(line@),
{
    let mut line = String::from_str("{\"id\":");
    line.append(id_json);
    line.append(",\"op\":");
    line.append(op_json);
    line.append("}");
    proof {
        reveal_strlit("{\"id\":");
        reveal_strlit(",\"op\":");
        reveal_strlit("}");
        if !has_line_break(id_json@) && !has_line_break(op_json@) {
            lemma_concat_has_no_line_break("{\"id\":"@, id_json@);
            lemma_concat_has_no_line_break("{\"id\":"@ + id_json@, ",\"op\":"@);
            lemma_concat_has_no_line_break("{\"id\":"@ + id_json@ + ",\"op\":"@, op_json@);
            lemma_concat_has_no_line_break(
                "{\"id\":"@ + id_json@ + ",\"op\":"@ + op_json@,
                "}"@,
            );
        }
    }
    line
}

/// Writes a submission as a single line of JSON, without the line feed that
/// ends it on the wire.
///
/// Every submission can be written: its strings are quoted, and JSON has
/// no string that it cannot hold. So the result is always `Ok`, and the line
/// holds no line feed.
pub fn encode_submission(submission: &Submission) -> (r: Result<String, ClientError>)
    ensures
        r matches Ok(line) && line@ == spec_encode_submission(submission@) && !has_line_break(
            line@,
        ),
{
    match quote_json(submission.id.as_str()) {
        Ok(id_json) => match encode_op(&submission.op) {
            Ok(op_json) => {
                proof {
                    lemma_json_string_has_no_line_break(submission.id@);
                }
                Ok(frame_submission(id_json.as_str(), op_json.as_str()))
            },
            Err(e) => Err(e),
        },
        Err(_) => Err(ClientError::Encode),
    }
}

/// The line of a submission opens with its identifier and, right behind it,
/// the kind of its operation, each where a reader of JSON looks for it: as
/// the member `id` of the document and as the member `type` of its `op`.
pub proof fn lemma_line_opens_with_id_and_kind(s: SubmissionView)
    ensures
        ("{\"id\":"@ + json_string_text(s.id) + ",\"op\":"@ + spec_tagged(
            s.op.kind(),
        )).is_prefix_of(spec_encode_submission(s)),
{
}

/// One message from the agent: a line that is one JSON object. What the
/// object holds is the agent's business; the client hands it on unchanged.
#[derive(Debug)]
pub struct Event {
    text: String,
}

impl View for Event {
    type V = Seq<char>;

    closed spec fn view(&self) -> Seq<char> {
        self.text@
    }
}

impl Event {
    #[verifier::type_invariant]
    spec fn well_formed(self) -> bool {
        is_json_object(self.text@)
    }

    /// The JSON text of the event, as the agent wrote it.
    pub fn as_str(&self) -> (r: &str)
        ensures
            r@ == self@,
            is_json_object(self@),
    {
        proof {
            use_type_invariant(self);
        }
        self.text.as_str()
    }

    /// Gives up the event for its JSON text.
    pub fn into_text(self) -> (r: String)
        ensures
            r@ == self@,
            is_json_object(self@),
    {
        proof {
            use_type_invariant(&self);
        }
        self.text
    }
}

/// A line from the agent that is not a JSON object. It is reported, and
/// reading goes on.
#[derive(Debug)]
pub struct DecodeWarning {
    /// The line as it was read.
    pub line: String,
}

/// Reads one line, without its line feed, as an event.
///
/// Succeeds exactly on a JSON object, with an event that holds the line
/// unchanged; any other line comes back in the warning.
pub fn decode_event(line: String) -> (r: Result<Event, DecodeWarning>)
    ensures
        is_json_object(line@) ==> (r matches Ok(event) && event@ == line@),
        !is_json_object(line@) ==> (r matches Err(warning) && warning.line@ == line@),
{
    if parses_as_object(line.as_str()) {
        Ok(Event { text: line })
    } else {
        Err(DecodeWarning { line })
    }
}

} // verus!
