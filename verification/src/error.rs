//! Errors of the application.
use vstd::prelude::*;

use crate::api::error::EndpointError;

verus! {

#[verifier::external_type_specification]
#[verifier::external_body]
pub struct ExIoError(std::io::Error);

/// What can go wrong in the application.
pub enum AppError {
    /// Terminal or process input and output failed.
    Io(std::io::Error),
    /// The configuration could not be read or written.
    Config(String),
    /// The provider client failed.
    Client(EndpointError),
    /// A tool call could not be made.
    ToolError(String),
}

} // verus!
