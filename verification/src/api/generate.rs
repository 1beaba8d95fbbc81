//! The text-generation endpoint.
use vstd::prelude::*;

use crate::api::chat::ChatMessageFinalResponseData;

verus! {

/// Body of a generation request.
pub struct Generate {
    /// Model name.
    pub model: String,
    /// Text to generate a response from.
    pub prompt: Option<String>,
    /// For fill-in-the-middle models, text after the prompt and before the
    /// response.
    pub suffix: Option<String>,
    /// Base64-encoded images.
    pub images: Option<Vec<String>>,
    /// Structured output format.
    pub format: Option<String>,
    /// System prompt.
    pub system: Option<String>,
    /// When true, a stream of partial responses is returned.
    pub stream: Option<bool>,
    /// When true, the thinking output is returned apart from the content.
    pub think: Option<bool>,
    /// When true, the prompt is sent without templating.
    pub raw: Option<bool>,
    /// Keep-alive duration of the model.
    pub keep_alive: Option<String>,
}

/// A generation response.
pub struct GenerateResponse {
    pub model: String,
    /// Creation time, ISO 8601.
    pub created_at: String,
    pub response: String,
    pub thinking: Option<String>,
    pub done: bool,
    pub done_reason: Option<String>,
    pub final_data: Option<ChatMessageFinalResponseData>,
}

} // verus!
