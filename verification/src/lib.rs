//! Viewport virtualization and selection tracking for a terminal chat view.
//!
//! The crate models a scrollable history of variable-height message blocks:
//! it computes which vertical slice of which message is visible for a given
//! scroll offset, keeps at most one item (a message or the input box)
//! selected, shifts that selection when the selected message scrolls out of
//! view, and appends streamed text deltas to the message that is still being
//! generated. Terminal drawing, input polling and the network transport are
//! collaborators outside this crate; they exchange plain values with it.

pub mod chat;
pub mod chat_mode;
pub mod clip;
pub mod message;
pub mod page;
pub mod textarea;
pub mod textbox;
pub mod utils;
