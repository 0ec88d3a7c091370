//! Copy text to the system clipboard and read it back, with every failure
//! reported as one human-readable message.
mod commands;
mod error;
mod platform;

pub use commands::{
    copy_outcome, copy_text, copy_to_clipboard, describes, init_failure, is_init_failure, is_op_failure,
    read_from_clipboard, read_outcome, read_text,
};
pub use error::{
    ClipboardError, ClipboardOp, copy_prefix, init_prefix, lemma_message_shape, read_prefix,
};
