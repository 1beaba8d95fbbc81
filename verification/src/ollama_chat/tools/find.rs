//! Parameters of the `Find` tool, shared with the agent's tool.
pub use crate::tools::find::Params;
