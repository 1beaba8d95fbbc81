//! Errors of the provider client.
use vstd::prelude::*;

verus! {

#[verifier::external_type_specification]
#[verifier::external_body]
pub struct ExReqwestError(reqwest::Error);

#[verifier::external_type_specification]
#[verifier::external_body]
pub struct ExUrlParseError(url::ParseError);

/// What can go wrong between the client and the provider.
pub enum EndpointError {
    /// The request or the reply stream failed on the network.
    NetworkError(reqwest::Error),
    /// A reply could not be read as the expected JSON.
    DeserializationError(serde_json::Error),
    /// The provider answered with an error, or the reply was not text.
    ClientError(String),
    /// The provider's address is not a valid URL.
    ParserError(url::ParseError),
}

/// The error body the provider sends instead of a result.
pub struct ProviderError {
    pub error: String,
}

} // verus!
