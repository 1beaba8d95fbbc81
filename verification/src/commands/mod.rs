//! The slash commands of the chat.
pub mod help;
