//! Core logic of a terminal chat agent for locally running language models:
//! the line editor, message wrapping and scrolling of the chat pane, the chat
//! history and its request shaping, the stream framing of provider replies,
//! slash commands and the command lines of the file-system tools.
pub mod api;
pub mod chat;
pub mod commands;
pub mod error;
pub mod event;
pub mod ollama_chat;
pub mod text;
pub mod tools;
pub mod ui;
