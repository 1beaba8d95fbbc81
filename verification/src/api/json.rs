//! JSON values of `serde_json`, carried through the library unread, and the
//! few operations the chat logic makes on them.
use vstd::prelude::*;

verus! {

#[verifier::external_type_specification]
#[verifier::external_body]
pub struct ExJsonValue(serde_json::Value);

#[verifier::external_type_specification]
#[verifier::external_body]
pub struct ExJsonError(serde_json::Error);

/// Whether `serde_json` accepts `text` as one JSON document.
pub uninterp spec fn parses_as_json(text: Seq<char>) -> bool;

/// Rust's debug notation of a string: the text in double quotes, with quotes,
/// backslashes and control characters escaped.
pub uninterp spec fn debug_quoted(text: Seq<char>) -> Seq<char>;

/// The value that `serde_json` reads from `text`, where `text` is JSON.
pub uninterp spec fn parsed_json(text: Seq<char>) -> serde_json::Value;

/// The compact JSON text of a value, as `Value`'s `Display` writes it.
pub uninterp spec fn json_text(value: serde_json::Value) -> Seq<char>;

/// The text of a JSON string value; `None` for any other value.
pub uninterp spec fn json_str(value: serde_json::Value) -> Option<Seq<char>>;

/// The keys and values of a JSON object, in the object's order; `None` for
/// any other value.
pub uninterp spec fn json_entries(value: serde_json::Value) -> Option<Seq<(Seq<char>, serde_json::Value)>>;

/// Parses `text` as a JSON value.
///
/// Trusted: `serde_json::from_str::<Value>` returns `Ok` exactly when `text`
/// is one well-formed JSON document (surrounding whitespace allowed), and
/// the value it reads depends on the text alone.
#[verifier::external_body]
pub(crate) fn parse_json(text: &str) -> (res: Result<serde_json::Value, serde_json::Error>)
    ensures
        res is Ok <==> parses_as_json(text@),
        res matches Ok(v) ==> v == parsed_json(text@),
{
    serde_json::from_str::<serde_json::Value>(text)
}

/// Compact JSON text of a value.
///
/// Trusted: `Value`'s `Display` (`to_string`) writes the value as compact
/// JSON, and the text depends on the value alone.
#[verifier::external_body]
pub(crate) fn json_to_text(value: &serde_json::Value) -> (res: String)
    ensures
        res@ == json_text(*value),
{
    value.to_string()
}

/// The entries of a JSON object, in the map's order, or `None` for a value
/// that is not an object.
///
/// Trusted: `Value::as_object` gives the object's map exactly for an object;
/// its entries are copied in the order the map iterates them, which depends
/// on the map alone.
#[verifier::external_body]
pub(crate) fn json_object_entries(value: &serde_json::Value) -> (res: Option<
    Vec<(String, serde_json::Value)>,
>)
    ensures
        match res {
            Some(es) => json_entries(*value) == Some(
                es@.map_values(|e: (String, serde_json::Value)| (e.0@, e.1)),
            ),
            None => json_entries(*value) is None,
        },
{
    value.as_object().map(|map| map.iter().map(|(k, v)| (k.clone(), v.clone())).collect())
}

/// The text of a JSON string value, or `None` for any other value.
///
/// Trusted: `Value::as_str` gives the string's text exactly for a string
/// value.
#[verifier::external_body]
pub(crate) fn json_string_content(value: &serde_json::Value) -> (res: Option<String>)
    ensures
        match res {
            Some(s) => json_str(*value) == Some(s@),
            None => json_str(*value) is None,
        },
{
    value.as_str().map(|s| s.to_owned())
}

/// Rust's debug notation of a string.
///
/// Trusted: `format!("{:?}", text)` on a `str` gives the text in double
/// quotes with its special characters escaped, and depends on the text alone.
#[verifier::external_body]
pub(crate) fn debug_quote(text: &str) -> (res: String)
    ensures
        res@ == debug_quoted(text@),
{
    format!("{:?}", text)
}

} // verus!
