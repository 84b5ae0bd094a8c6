//! What a line tells of the submission that it was written for.
//!
//! The client never reads its own submissions. But the agent does, so a line
//! must not be the line of two submissions that differ in identifier or in
//! kind. That is proved here, from the text of a line alone.

use vstd::prelude::*;
use crate::codec::{hex_digit, json_escape, json_escape_char, json_string_text,
    spec_encode_op, spec_encode_submission, spec_tagged};
use crate::protocol::{OpView, SubmissionView};

verus! {

/// Whether two operations are of the same kind.
pub open spec fn same_kind(a: OpView, b: OpView) -> bool {
    match a {
        OpView::UserInput { .. } => b is UserInput,
        OpView::ExecApproval { .. } => b is ExecApproval,
        OpView::PatchApproval { .. } => b is PatchApproval,
        OpView::Interrupt => b is Interrupt,
        OpView::Shutdown => b is Shutdown,
    }
}

/// Texts that begin alike and are equal end alike.
proof fn lemma_same_start_same_end(start: Seq<char>, a: Seq<char>, b: Seq<char>)
    requires
        start + a == start + b,
    ensures
        a == b,
{
    assert(a =~= (start + a).subrange(start.len() as int, (start + a).len() as int));
    assert(b =~= (start + b).subrange(start.len() as int, (start + b).len() as int));
}

/// The escaped text of a string is that of its first character, then that
/// of the rest.
proof fn lemma_escape_from_the_front(s: Seq<char>)
    requires
        s.len() > 0,
    ensures
        json_escape(s) == json_escape_char(s[0]) + json_escape(s.drop_first()),
    decreases s.len(),
{
    if s.len() == 1 {
        assert(s.drop_last() =~= Seq::<char>::empty());
        assert(s.drop_first() =~= Seq::<char>::empty());
        assert(json_escape(s) =~= json_escape_char(s[0]) + json_escape(s.drop_first()));
    } else {
        let front = s.drop_last();
        lemma_escape_from_the_front(front);
        assert(front.drop_first() =~= s.drop_first().drop_last());
        assert(s.drop_first().last() == s.last());
        assert(front[0] == s[0]);
        assert(json_escape(s) =~= json_escape_char(s[0]) + json_escape(s.drop_first()));
    }
}

/// Different numbers below sixteen have different hexadecimal digits.
proof fn lemma_hex_digits_differ(a: u32, b: u32)
    requires
        a < 16,
        b < 16,
        hex_digit(a) == hex_digit(b),
    ensures
        a == b,
{
}

/// Whether a character is written with a backslash inside a JSON string.
spec fn is_escaped(c: char) -> bool {
    c == '"' || c == '\\' || (c as u32) < 32
}

/// The escaped text of a character never begins with a double quote, and
/// it begins with a backslash exactly where the character is escaped.
proof fn lemma_escape_char_start(c: char)
    ensures
        json_escape_char(c).len() >= 1,
        json_escape_char(c)[0] != '"',
        is_escaped(c) <==> json_escape_char(c)[0] == '\\',
        is_escaped(c) ==> json_escape_char(c).len() >= 2,
        !is_escaped(c) ==> json_escape_char(c) == seq![c],
{
}

/// Where the escaped texts of two characters begin two equal texts, the
/// characters are the same, and so is what follows them.
proof fn lemma_escape_char_ends_in_one_place(c: char, d: char, u: Seq<char>, v: Seq<char>)
    requires
        json_escape_char(c) + u == json_escape_char(d) + v,
    ensures
        c == d,
        u == v,
{
    let ec = json_escape_char(c);
    let ed = json_escape_char(d);
    let line = ec + u;
    lemma_escape_char_start(c);
    lemma_escape_char_start(d);
    assert(line[0] == ec[0]);
    assert((ed + v)[0] == ed[0]);
    if is_escaped(c) {
        assert(is_escaped(d));
        assert(line[1] == ec[1]);
        assert((ed + v)[1] == ed[1]);
        if ec[1] == 'u' {
            assert(ed[1] == 'u');
            assert(ec.len() == 6 && ed.len() == 6);
            assert(line[4] == ec[4] && line[5] == ec[5]);
            assert((ed + v)[4] == ed[4] && (ed + v)[5] == ed[5]);
            lemma_hex_digits_differ((c as u32) / 16, (d as u32) / 16);
            lemma_hex_digits_differ((c as u32) % 16, (d as u32) % 16);
            assert(c as u32 == d as u32);
        }
        assert(c == d);
    } else {
        assert(!is_escaped(d));
        assert(c == d);
    }
    lemma_same_start_same_end(ec, u, v);
}

/// Where two escaped texts, each closed by a double quote, begin two equal
/// texts, the strings are the same, and so is what follows the quote.
proof fn lemma_escape_ends_at_the_quote(x: Seq<char>, y: Seq<char>, u: Seq<char>, v: Seq<char>)
    requires
        json_escape(x) + (seq!['"'] + u) == json_escape(y) + (seq!['"'] + v),
    ensures
        x == y,
        u == v,
    decreases x.len(),
{
    let q = seq!['"'];
    if x.len() == 0 {
        if y.len() > 0 {
            lemma_escape_from_the_front(y);
            lemma_escape_char_start(y[0]);
            assert((json_escape(x) + (q + u))[0] == '"');
            assert((json_escape(y) + (q + v))[0] == json_escape_char(y[0])[0]);
        }
        assert(x =~= y);
        assert(json_escape(x) + (q + u) =~= q + u);
        assert(json_escape(y) + (q + v) =~= q + v);
        lemma_same_start_same_end(q, u, v);
    } else if y.len() == 0 {
        lemma_escape_from_the_front(x);
        lemma_escape_char_start(x[0]);
        assert((json_escape(y) + (q + v))[0] == '"');
        assert((json_escape(x) + (q + u))[0] == json_escape_char(x[0])[0]);
    } else {
        lemma_escape_from_the_front(x);
        lemma_escape_from_the_front(y);
        let xr = json_escape(x.drop_first()) + (q + u);
        let yr = json_escape(y.drop_first()) + (q + v);
        assert(json_escape(x) + (q + u) =~= json_escape_char(x[0]) + xr);
        assert(json_escape(y) + (q + v) =~= json_escape_char(y[0]) + yr);
        lemma_escape_char_ends_in_one_place(x[0], y[0], xr, yr);
        lemma_escape_ends_at_the_quote(x.drop_first(), y.drop_first(), u, v);
        assert(x =~= seq![x[0]] + x.drop_first());
        assert(y =~= seq![y[0]] + y.drop_first());
    }
}

/// A JSON string literal ends in one place only: where two literals begin
/// two equal texts, they are the literals of the same string, and what
/// follows them is the same.
pub proof fn lemma_json_string_ends_in_one_place(
    x: Seq<char>,
    y: Seq<char>,
    u: Seq<char>,
    v: Seq<char>,
)
    requires
        json_string_text(x) + u == json_string_text(y) + v,
    ensures
        x == y,
        u == v,
{
    let q = seq!['"'];
    assert(json_string_text(x) + u =~= q + (json_escape(x) + (q + u)));
    assert(json_string_text(y) + v =~= q + (json_escape(y) + (q + v)));
    lemma_same_start_same_end(q, json_escape(x) + (q + u), json_escape(y) + (q + v));
    lemma_escape_ends_at_the_quote(x, y, u, v);
}

/// Different strings have different JSON string literals.
pub proof fn lemma_json_string_text_is_lossless(x: Seq<char>, y: Seq<char>)
    requires
        json_string_text(x) == json_string_text(y),
    ensures
        x == y,
{
    assert(json_string_text(x) + Seq::<char>::empty() =~= json_string_text(x));
    assert(json_string_text(y) + Seq::<char>::empty() =~= json_string_text(y));
    lemma_json_string_ends_in_one_place(x, y, Seq::empty(), Seq::empty());
}

/// Whether a text holds a double quote.
spec fn has_quote(s: Seq<char>) -> bool {
    exists|i: int| 0 <= i < s.len() && s[i] == '"'
}

/// Where two texts without a double quote, each closed by one, begin two
/// equal texts, they are the same text.
proof fn lemma_word_ends_at_the_quote(a: Seq<char>, b: Seq<char>, u: Seq<char>, v: Seq<char>)
    requires
        !has_quote(a),
        !has_quote(b),
        a + (seq!['"'] + u) == b + (seq!['"'] + v),
    ensures
        a == b,
{
    let left = a + (seq!['"'] + u);
    let right = b + (seq!['"'] + v);
    if a.len() < b.len() {
        assert(left[a.len() as int] == '"');
        assert(right[a.len() as int] == b[a.len() as int]);
    } else if b.len() < a.len() {
        assert(right[b.len() as int] == '"');
        assert(left[b.len() as int] == a[b.len() as int]);
    } else {
        assert forall|i: int| 0 <= i < a.len() implies a[i] == b[i] by {
            assert(left[i] == a[i]);
            assert(right[i] == b[i]);
        }
        assert(a =~= b);
    }
}

/// The five kinds of operation have five different names, none of which
/// holds a double quote.
proof fn lemma_kinds_are_told_apart(a: OpView, b: OpView)
    ensures
        !has_quote(a.kind()),
        a.kind() == b.kind() ==> same_kind(a, b),
{
    reveal_strlit("user_input");
    reveal_strlit("exec_approval");
    reveal_strlit("patch_approval");
    reveal_strlit("interrupt");
    reveal_strlit("shutdown");
    assert("user_input"@.len() == 10);
    assert("exec_approval"@.len() == 13);
    assert("patch_approval"@.len() == 14);
    assert("interrupt"@.len() == 9);
    assert("shutdown"@.len() == 8);
}

/// What stands behind the tag in the line of an operation.
spec fn fields_text(op: OpView) -> Seq<char> {
    match op {
        OpView::UserInput { items } => ",\"items\":["@ + crate::codec::spec_encode_items(items)
            + "]}"@,
        OpView::ExecApproval { id, decision } => ",\"id\":"@ + json_string_text(id)
            + ",\"decision\":\""@ + decision.spec_name() + "\"}"@,
        OpView::PatchApproval { id, decision } => ",\"id\":"@ + json_string_text(id)
            + ",\"decision\":\""@ + decision.spec_name() + "\"}"@,
        OpView::Interrupt => "}"@,
        OpView::Shutdown => "}"@,
    }
}

/// The line of an operation is its tag and then its fields.
proof fn lemma_op_is_tag_and_fields(op: OpView)
    ensures
        spec_encode_op(op) == spec_tagged(op.kind()) + fields_text(op),
{
    assert(spec_encode_op(op) =~= spec_tagged(op.kind()) + fields_text(op));
}

/// A line tells the identifier and the kind of the submission that it was
/// written for: two submissions with the same line have the same
/// identifier and operations of the same kind. So whoever reads the line
/// back finds the identifier and the kind that went in, and no others.
pub proof fn lemma_line_tells_id_and_kind(a: SubmissionView, b: SubmissionView)
    requires
        spec_encode_submission(a) == spec_encode_submission(b),
    ensures
        a.id == b.id,
        a.op.kind() == b.op.kind(),
        same_kind(a.op, b.op),
{
    reveal_strlit("\"");
    let head = "{\"id\":"@;
    let mid = ",\"op\":"@;
    let open = "{\"type\":\""@;
    let q = seq!['"'];
    assert("\""@ =~= q);
    lemma_op_is_tag_and_fields(a.op);
    lemma_op_is_tag_and_fields(b.op);
    let a_tail = fields_text(a.op) + "}"@;
    let b_tail = fields_text(b.op) + "}"@;
    let a_op = open + (a.op.kind() + (q + a_tail));
    let b_op = open + (b.op.kind() + (q + b_tail));
    assert(spec_encode_op(a.op) + "}"@ =~= a_op);
    assert(spec_encode_op(b.op) + "}"@ =~= b_op);
    assert(spec_encode_submission(a) =~= head + (json_string_text(a.id) + (mid + a_op)));
    assert(spec_encode_submission(b) =~= head + (json_string_text(b.id) + (mid + b_op)));
    lemma_same_start_same_end(
        head,
        json_string_text(a.id) + (mid + a_op),
        json_string_text(b.id) + (mid + b_op),
    );
    lemma_json_string_ends_in_one_place(a.id, b.id, mid + a_op, mid + b_op);
    lemma_same_start_same_end(mid, a_op, b_op);
    lemma_same_start_same_end(
        open,
        a.op.kind() + (q + a_tail),
        b.op.kind() + (q + b_tail),
    );
    lemma_kinds_are_told_apart(a.op, b.op);
    lemma_kinds_are_told_apart(b.op, a.op);
    lemma_word_ends_at_the_quote(a.op.kind(), b.op.kind(), a_tail, b_tail);
}

} // verus!
