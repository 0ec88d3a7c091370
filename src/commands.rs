use crate::error::{ClipboardError, ClipboardOp, copy_prefix, init_prefix, read_prefix};
use crate::platform::set_text;
use vstd::prelude::*;
use vstd::string::to_string_from_display_ensures;

verus! {

/// `details` is the platform's own description of `e`.
pub open spec fn describes(details: String, e: &arboard::Error) -> bool {
    to_string_from_display_ensures::<arboard::Error>(e, details)
}

/// Whether `r` is the failure of reaching the clipboard that `e` reports.
pub open spec fn is_init_failure(r: ClipboardError, e: &arboard::Error) -> bool {
    r matches ClipboardError::Init { details } && describes(details, e)
}

/// Whether `r` is the failure of operation `op` that `e` reports.
pub open spec fn is_op_failure(r: ClipboardError, op: ClipboardOp, e: &arboard::Error) -> bool {
    r matches ClipboardError::Operation { op: o, details } && o == op && describes(details, e)
}

/// The failure of reaching the clipboard that `e` reports.
pub fn init_failure(e: &arboard::Error) -> (r: ClipboardError)
    ensures
        is_init_failure(r, e),
{
    ClipboardError::Init { details: e.to_string() }
}

/// The outcome of a copy, given what setting the clipboard's text returned.
pub fn copy_outcome(set: Result<(), arboard::Error>) -> (r: Result<(), ClipboardError>)
    ensures
        r is Ok <==> set is Ok,
        set matches Err(e) ==> r matches Err(f) && is_op_failure(f, ClipboardOp::Copy, &e),
{
    match set {
        Ok(()) => Ok(()),
        Err(e) => Err(ClipboardError::Operation { op: ClipboardOp::Copy, details: e.to_string() }),
    }
}

/// The outcome of a read, given what fetching the clipboard's text returned:
/// the text verbatim, or a read failure. An empty or non-text clipboard comes
/// back from the platform as an error, and so stays one here.
pub fn read_outcome(got: Result<String, arboard::Error>) -> (r: Result<String, ClipboardError>)
    ensures
        got matches Ok(t) ==> r == Ok::<String, ClipboardError>(t),
        got matches Err(e) ==> r matches Err(f) && is_op_failure(f, ClipboardOp::Read, &e),
{
    match got {
        Ok(t) => Ok(t),
        Err(e) => Err(ClipboardError::Operation { op: ClipboardOp::Read, details: e.to_string() }),
    }
}

/// Reaches the clipboard and replaces its contents with `text`. The handle is
/// dropped before returning, on every path.
pub fn copy_text(text: String) -> (r: Result<(), ClipboardError>)
    ensures
        r matches Err(f) ==> f.arises_in(ClipboardOp::Copy),
{
    match arboard::Clipboard::new() {
        Err(e) => Err(init_failure(&e)),
        Ok(mut clipboard) => copy_outcome(set_text(&mut clipboard, text)),
    }
}

/// Reaches the clipboard and returns the text it holds. The handle is dropped
/// before returning, on every path.
pub fn read_text() -> (r: Result<String, ClipboardError>)
    ensures
        r matches Err(f) ==> f.arises_in(ClipboardOp::Read),
{
    match arboard::Clipboard::new() {
        Err(e) => Err(init_failure(&e)),
        Ok(mut clipboard) => read_outcome(clipboard.get_text()),
    }
}

/// Places `text` on the system clipboard. A failure comes back as its
/// message, which begins with the initialization or the copy prefix.
pub fn copy_to_clipboard(text: String) -> (r: Result<(), String>)
    ensures
        r matches Err(m) ==> exists|f: ClipboardError|
            f.arises_in(ClipboardOp::Copy) && #[trigger] f.message_spec() == m@,
        r matches Err(m) ==> init_prefix().is_prefix_of(m@) || copy_prefix().is_prefix_of(m@),
{
    match copy_text(text) {
        Ok(()) => Ok(()),
        Err(f) => {
            let m = f.message();
            proof {
                crate::error::lemma_message_shape(&f);
            }
            Err(m)
        },
    }
}

/// Returns the text on the system clipboard. A failure comes back as its
/// message, which begins with the initialization or the read prefix.
pub fn read_from_clipboard() -> (r: Result<String, String>)
    ensures
        r matches Err(m) ==> exists|f: ClipboardError|
            f.arises_in(ClipboardOp::Read) && #[trigger] f.message_spec() == m@,
        r matches Err(m) ==> init_prefix().is_prefix_of(m@) || read_prefix().is_prefix_of(m@),
{
    match read_text() {
        Ok(t) => Ok(t),
        Err(f) => {
            let m = f.message();
            proof {
                crate::error::lemma_message_shape(&f);
            }
            Err(m)
        },
    }
}

} // verus!

