//! Request and response shapes of the chat provider's HTTP API, the framing
//! of its streamed replies, and the JSON values carried through them.
pub mod chat;
pub mod client;
pub mod error;
pub mod generate;
pub mod json;
pub mod stream;
pub mod tag;
