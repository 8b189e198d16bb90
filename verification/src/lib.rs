//! A bridge between a chat user interface and a local chat-completion service:
//! the decoder for the service's streamed replies, and the rules by which a
//! conversation's messages are kept and read back.

pub mod model;
pub mod text;
pub mod wire;
pub mod decoder;
pub mod store;
pub mod request;
