//! Core logic of a chat bot that runs fenced Rust code blocks on a remote
//! playground and posts the captured output back into the conversation.
//!
//! The crate holds the decision logic only: recognizing the command syntax in
//! a message, building the playground request, choosing how to deliver the
//! output by its size, and remembering which reply belongs to which message so
//! an edited message can update its reply. All network traffic stays outside.

pub mod events;
pub mod extract;
pub mod playground;
pub mod routing;
pub mod text;
pub mod tracker;
