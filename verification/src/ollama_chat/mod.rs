//! The chat front end for a local Ollama server: its history of role-tagged
//! messages, its configuration, its tools and the lines of its chat pane.
pub mod config;
pub mod conversation;
pub mod tools;
pub mod view;
