//! The tools of the chat front end.
pub mod find;
pub mod list_files;
pub mod read;
