//! The chat session's state: the history, tool calls and slash commands.
pub mod command;
pub mod command_registry;
pub mod conversation;
pub mod tool_registry;
