//! The `Read` tool, shared with the agent.
pub use crate::tools::read::{Params, Read};
