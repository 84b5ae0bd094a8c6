//! The messages that travel between the client and the agent process.

use vstd::prelude::*;

verus! {

/// The answer to a request for approval.
#[derive(Clone, Copy, Debug, PartialEq, Eq, Structural)]
pub enum Decision {
    Allow,
    Deny,
}

impl Decision {
    /// `Allow` for `true`, `Deny` for `false`.
    pub open spec fn spec_from_approved(approved: bool) -> Decision {
        if approved {
            Decision::Allow
        } else {
            Decision::Deny
        }
    }

    /// The decision as it is written on the wire.
    pub open spec fn spec_name(self) -> Seq<char> {
        match self {
            Decision::Allow => "allow"@,
            Decision::Deny => "deny"@,
        }
    }

    /// The decision that a caller's yes or no stands for.
    pub fn from_approved(approved: bool) -> (d: Decision)
        ensures
            d == Self::spec_from_approved(approved),
    {
        if approved {
            Decision::Allow
        } else {
            Decision::Deny
        }
    }

    /// The decision as it is written on the wire.
    pub fn name(&self) -> (r: &'static str)
        ensures
            r@ == self.spec_name(),
    {
        match self {
            Decision::Allow => "allow",
            Decision::Deny => "deny",
        }
    }
}

/// One block of a user's input.
#[derive(Debug)]
pub enum InputItem {
    Text { text: String },
}

/// An input block as plain values.
pub enum ItemView {
    Text { text: Seq<char> },
}

impl View for InputItem {
    type V = ItemView;

    open spec fn view(&self) -> ItemView {
        match self {
            InputItem::Text { text } => ItemView::Text { text: text@ },
        }
    }
}

/// The views of a sequence of input blocks.
pub open spec fn item_views(items: Seq<InputItem>) -> Seq<ItemView> {
    Seq::new(items.len(), |i: int| items[i]@)
}

/// What the client asks of the agent.
#[derive(Debug)]
pub enum Op {
    /// Input from the user, as an ordered sequence of blocks.
    UserInput { items: Vec<InputItem> },
    /// The answer to a request to run a command.
    ExecApproval { id: String, decision: Decision },
    /// The answer to a request to apply a patch.
    PatchApproval { id: String, decision: Decision },
    /// Stop the current action.
    Interrupt,
    /// End the session.
    Shutdown,
}

/// An operation as plain values.
pub enum OpView {
    UserInput { items: Seq<ItemView> },
    ExecApproval { id: Seq<char>, decision: Decision },
    PatchApproval { id: Seq<char>, decision: Decision },
    Interrupt,
    Shutdown,
}

impl View for Op {
    type V = OpView;

    open spec fn view(&self) -> OpView {
        match self {
            Op::UserInput { items } => OpView::UserInput { items: item_views(items@) },
            Op::ExecApproval { id, decision } => OpView::ExecApproval {
                id: id@,
                decision: *decision,
            },
            Op::PatchApproval { id, decision } => OpView::PatchApproval {
                id: id@,
                decision: *decision,
            },
            Op::Interrupt => OpView::Interrupt,
            Op::Shutdown => OpView::Shutdown,
        }
    }
}

impl OpView {
    /// The tag that tells the kinds of operation apart on the wire.
    pub open spec fn kind(self) -> Seq<char> {
        match self {
            OpView::UserInput { .. } => "user_input"@,
            OpView::ExecApproval { .. } => "exec_approval"@,
            OpView::PatchApproval { .. } => "patch_approval"@,
            OpView::Interrupt => "interrupt"@,
            OpView::Shutdown => "shutdown"@,
        }
    }
}

impl Op {
    /// The tag that tells the kinds of operation apart on the wire.
    pub fn kind(&self) -> (r: &'static str)
        ensures
            r@ == self@.kind(),
    {
        match self {
            Op::UserInput { .. } => "user_input",
            Op::ExecApproval { .. } => "exec_approval",
            Op::PatchApproval { .. } => "patch_approval",
            Op::Interrupt => "interrupt",
            Op::Shutdown => "shutdown",
        }
    }
}

/// One message from the client to the agent. The client does not wait for
/// an answer to it.
#[derive(Debug)]
pub struct Submission {
    /// Identifies this submission among all others.
    pub id: String,
    pub op: Op,
}

/// A submission as plain values.
pub struct SubmissionView {
    pub id: Seq<char>,
    pub op: OpView,
}

impl View for Submission {
    type V = SubmissionView;

    open spec fn view(&self) -> SubmissionView {
        SubmissionView { id: self.id@, op: self.op@ }
    }
}

impl Submission {
    /// A submission that carries `message` as a single text block.
    pub fn user_input(id: String, message: String) -> (s: Submission)
        ensures
            s@ == (SubmissionView {
                id: id@,
                op: OpView::UserInput { items: seq![ItemView::Text { text: message@ }] },
            }),
    {
        let mut items: Vec<InputItem> = Vec::new();
        items.push(InputItem::Text { text: message });
        assert(item_views(items@) =~= seq![ItemView::Text { text: message@ }]);
        Submission { id, op: Op::UserInput { items } }
    }

    /// A submission that allows or denies the command `approval_id`.
    pub fn exec_approval(id: String, approval_id: String, approved: bool) -> (s: Submission)
        ensures
            s@ == (SubmissionView {
                id: id@,
                op: OpView::ExecApproval {
                    id: approval_id@,
                    decision: Decision::spec_from_approved(approved),
                },
            }),
    {
        let decision = Decision::from_approved(approved);
        Submission { id, op: Op::ExecApproval { id: approval_id, decision } }
    }

    /// A submission that allows or denies the patch `approval_id`.
    pub fn patch_approval(id: String, approval_id: String, approved: bool) -> (s: Submission)
        ensures
            s@ == (SubmissionView {
                id: id@,
                op: OpView::PatchApproval {
                    id: approval_id@,
                    decision: Decision::spec_from_approved(approved),
                },
            }),
    {
        let decision = Decision::from_approved(approved);
        Submission { id, op: Op::PatchApproval { id: approval_id, decision } }
    }

    /// A submission that asks the agent to stop its current action.
    pub fn interrupt(id: String) -> (s: Submission)
        ensures
            s@ == (SubmissionView { id: id@, op: OpView::Interrupt }),
    {
        Submission { id, op: Op::Interrupt }
    }

    /// A submission that asks the agent to end the session.
    pub fn shutdown(id: String) -> (s: Submission)
        ensures
            s@ == (SubmissionView { id: id@, op: OpView::Shutdown }),
    {
        Submission { id, op: Op::Shutdown }
    }
}

} // verus!
