//! Addresses of the provider's HTTP API.
use vstd::prelude::*;
use vstd::string::*;

use crate::api::error::EndpointError;
use crate::text::{decimal, decimal_string};

verus! {

#[verifier::external_type_specification]
#[verifier::external_body]
pub struct ExUrl(url::Url);

/// Whether the `url` crate accepts `text` as an absolute URL.
pub uninterp spec fn url_accepts(text: Seq<char>) -> bool;

/// The URL that the `url` crate reads from `text`, where it accepts it.
pub uninterp spec fn parsed_url(text: Seq<char>) -> url::Url;

/// Parses an absolute URL.
///
/// Trusted: `Url::parse` succeeds exactly on the texts it accepts, and both
/// that and the URL it reads depend on the text alone.
#[verifier::external_body]
fn parse_url(text: &str) -> (res: Result<url::Url, url::ParseError>)
    ensures
        res is Ok <==> url_accepts(text@),
        res matches Ok(u) ==> u == parsed_url(text@),
{
    url::Url::parse(text)
}

/// The address of an Ollama server on `host` and `port`.
pub open spec fn server_address(host: Seq<char>, port: u16) -> Seq<char> {
    "http://"@ + host + ":"@ + decimal(port as nat)
}

/// `http://<host>:<port>`.
pub fn server_url_text(host: &str, port: u16) -> (res: String)
    ensures
        res@ == server_address(host@, port),
{
    let mut s = String::new();
    s.append("http://");
    s.append(host);
    s.append(":");
    let p = decimal_string(port as u64);
    s.append(p.as_str());
    s
}

/// The base URL of a provider; an address that is not a URL is a parser
/// error.
pub fn parse_base_url(text: &str) -> (res: Result<url::Url, EndpointError>)
    ensures
        res is Ok <==> url_accepts(text@),
        res matches Ok(u) ==> u == parsed_url(text@),
        res matches Err(e) ==> e is ParserError,
{
    match parse_url(text) {
        Ok(u) => Ok(u),
        Err(e) => Err(EndpointError::ParserError(e)),
    }
}

/// The base URL of the Ollama server on `host` and `port`.
pub fn server_url(host: &str, port: u16) -> (res: Result<url::Url, EndpointError>)
    ensures
        res is Ok <==> url_accepts(server_address(host@, port)),
        res matches Ok(u) ==> u == parsed_url(server_address(host@, port)),
        res matches Err(e) ==> e is ParserError,
{
    let text = server_url_text(host, port);
    parse_base_url(text.as_str())
}

/// Whether the `url` crate can resolve `input` against the URL `base`.
pub uninterp spec fn url_join_accepts(base: url::Url, input: Seq<char>) -> bool;

/// The URL that the `url` crate resolves `input` to against `base`, where it
/// can.
pub uninterp spec fn joined_url(base: url::Url, input: Seq<char>) -> url::Url;

/// Resolves `input` against the URL `base`.
///
/// Trusted: `Url::join` parses `input` with `base` as the base URL; whether
/// it succeeds and the URL it gives depend on `base` and `input` alone.
#[verifier::external_body]
fn join_url(base: &url::Url, input: &str) -> (res: Result<url::Url, url::ParseError>)
    ensures
        res is Ok <==> url_join_accepts(*base, input@),
        res matches Ok(u) ==> u == joined_url(*base, input@),
{
    base.join(input)
}

/// The URL of the provider's `endpoint` (such as `/api/chat`) under its base
/// URL; a path that cannot be resolved is a parser error.
pub fn endpoint_url(base: &url::Url, endpoint: &str) -> (res: Result<url::Url, EndpointError>)
    ensures
        res is Ok <==> url_join_accepts(*base, endpoint@),
        res matches Ok(u) ==> u == joined_url(*base, endpoint@),
        res matches Err(e) ==> e is ParserError,
{
    match join_url(base, endpoint) {
        Ok(u) => Ok(u),
        Err(e) => Err(EndpointError::ParserError(e)),
    }
}

} // verus!
