//! The list of models available on the provider.
use vstd::prelude::*;

verus! {

/// The models available on the provider.
pub struct TagList {
    pub models: Vec<TagInfo>,
}

pub struct TagInfo {
    pub name: String,
    pub model: String,
    /// Name of the upstream model, for a remote model.
    pub remote_model: Option<String>,
    /// URL of the upstream host, for a remote model.
    pub remote_host: Option<String>,
    /// Last modification, ISO 8601.
    pub modified_at: String,
    /// Size on disk, in bytes.
    pub size: u32,
    /// SHA256 digest of the model contents.
    pub digest: String,
    pub details: TagDetails,
}

pub struct TagDetails {
    /// Model file format, such as gguf.
    pub format: String,
    /// Primary model family.
    pub family: String,
    pub families: Vec<String>,
    /// Approximate parameter count label, such as 7B.
    pub parameter_size: String,
    /// Quantization level, such as Q4_0.
    pub quantization_level: String,
}

} // verus!
