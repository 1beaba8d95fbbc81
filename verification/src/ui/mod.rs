//! Terminal user interface state: the line editor, the chat pane and the
//! key and mouse handling that drives them.
pub mod input;
pub mod message_area;
pub mod tui;
