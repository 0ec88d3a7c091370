use vstd::prelude::*;

verus! {

/// The fixed text that opens the message of a failure to reach the clipboard.
pub open spec fn init_prefix() -> Seq<char> {
    "Failed to initialize clipboard: "@
}

/// The fixed text that opens the message of a failed write.
pub open spec fn copy_prefix() -> Seq<char> {
    "Failed to copy to clipboard: "@
}

/// The fixed text that opens the message of a failed read.
pub open spec fn read_prefix() -> Seq<char> {
    "Failed to read from clipboard: "@
}

/// The clipboard operation that was under way when a failure came.
#[derive(Clone, Copy, Debug, PartialEq, Eq, Structural)]
pub enum ClipboardOp {
    Copy,
    Read,
}

/// A failure of a clipboard operation: either the clipboard could not be
/// reached at all, or it was reached and the operation itself failed.
/// `details` is the platform's own description of what went wrong.
#[derive(Debug, PartialEq, Eq)]
pub enum ClipboardError {
    Init { details: String },
    Operation { op: ClipboardOp, details: String },
}

impl ClipboardOp {
    pub open spec fn prefix_spec(self) -> Seq<char> {
        match self {
            ClipboardOp::Copy => copy_prefix(),
            ClipboardOp::Read => read_prefix(),
        }
    }
}

impl ClipboardError {
    /// The fixed text that opens this failure's message.
    pub open spec fn prefix_spec(&self) -> Seq<char> {
        match self {
            ClipboardError::Init { .. } => init_prefix(),
            ClipboardError::Operation { op, .. } => op.prefix_spec(),
        }
    }

    pub open spec fn details_spec(&self) -> Seq<char> {
        match self {
            ClipboardError::Init { details } => details@,
            ClipboardError::Operation { details, .. } => details@,
        }
    }

    /// The message shown for this failure: its prefix, then the platform's text.
    pub open spec fn message_spec(&self) -> Seq<char> {
        self.prefix_spec() + self.details_spec()
    }

    /// Whether this failure belongs to operation `op`: it either could not
    /// reach the clipboard or failed in `op` itself.
    pub open spec fn arises_in(&self, op: ClipboardOp) -> bool {
        match self {
            ClipboardError::Init { .. } => true,
            ClipboardError::Operation { op: o, .. } => *o == op,
        }
    }

    /// The platform's description of the failure.
    pub fn details(&self) -> (r: &String)
        ensures
            r@ == self.details_spec(),
    {
        match self {
            ClipboardError::Init { details } => details,
            ClipboardError::Operation { details, .. } => details,
        }
    }

    /// The message for display: the fixed prefix of the failure's kind,
    /// followed by the platform's text.
    pub fn message(&self) -> (r: String)
        ensures
            r@ == self.message_spec(),
    {
        let prefix: &str = match self {
            ClipboardError::Init { .. } => "Failed to initialize clipboard: ",
            ClipboardError::Operation { op: ClipboardOp::Copy, .. } => "Failed to copy to clipboard: ",
            ClipboardError::Operation { op: ClipboardOp::Read, .. } => "Failed to read from clipboard: ",
        };
        String::from_str(prefix).concat(self.details().as_str())
    }
}

/// Every failure message begins with exactly one of the three fixed prefixes,
/// the one of the failure's kind, and what follows it is the platform's text.
pub proof fn lemma_message_shape(e: &ClipboardError)
    ensures
        e.message_spec().subrange(0, e.prefix_spec().len() as int) == e.prefix_spec(),
        e.message_spec().subrange(e.prefix_spec().len() as int, e.message_spec().len() as int)
            == e.details_spec(),
        init_prefix().is_prefix_of(e.message_spec()) <==> e is Init,
        copy_prefix().is_prefix_of(e.message_spec()) <==> e is Operation && e->op == ClipboardOp::Copy,
        read_prefix().is_prefix_of(e.message_spec()) <==> e is Operation && e->op == ClipboardOp::Read,
{
    reveal_strlit("Failed to initialize clipboard: ");
    reveal_strlit("Failed to copy to clipboard: ");
    reveal_strlit("Failed to read from clipboard: ");
    let m = e.message_spec();
    let p = e.prefix_spec();
    assert(m.subrange(0, p.len() as int) =~= p);
    assert(m.subrange(p.len() as int, m.len() as int) =~= e.details_spec());
    assert(init_prefix()[10] == 'i');
    assert(copy_prefix()[10] == 'c');
    assert(read_prefix()[10] == 'r');
    assert(m[10] == p[10]);
}

} // verus!
