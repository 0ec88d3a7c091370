use vstd::prelude::*;

verus! {

/// A handle to the system clipboard, as arboard gives it.
#[verifier::external_type_specification]
#[verifier::external_body]
pub struct ExClipboard(arboard::Clipboard);

/// A failure reported by arboard.
#[verifier::external_type_specification]
#[verifier::external_body]
pub struct ExArboardError(arboard::Error);

/// Relies on arboard::Clipboard::new: opens a handle to the system clipboard,
/// or returns the platform's reason why it cannot.
pub assume_specification[ arboard::Clipboard::new ]() -> Result<arboard::Clipboard, arboard::Error>;

/// Relies on arboard::Clipboard::get_text: the clipboard's current text, or an
/// error where the clipboard is empty or holds no text.
pub assume_specification[ arboard::Clipboard::get_text ](
    clipboard: &mut arboard::Clipboard,
) -> Result<String, arboard::Error>;

/// Relies on arboard::Clipboard::set_text: replaces the clipboard's contents
/// with `text`, or returns the platform's reason why it could not.
#[verifier::external_body]
pub(crate) fn set_text(clipboard: &mut arboard::Clipboard, text: String) -> Result<(), arboard::Error> {
    clipboard.set_text(text)
}

} // verus!
