//! Reading the API token that the ginger tools keep in `auth.json`.

use vstd::prelude::*;

verus! {

/// What `serde_json::from_str::<serde_json::Value>` makes of `text`, read
/// for the top-level member `key`: `None` when `text` is not a JSON
/// document; otherwise the member's value when the document is an object
/// whose member `key` is a string, and `Some(None)` when it is not.
pub uninterp spec fn json_str_member_spec(text: Seq<char>, key: Seq<char>) -> Option<Option<Seq<char>>>;

/// Parses `text` with `serde_json::from_str` into a `serde_json::Value`
/// and reads its member `key` with `Value::get` and `Value::as_str`; the
/// contract claims only that the outcome is `json_str_member_spec` of the
/// two texts, which the parse determines.
#[verifier::external_body]
fn json_str_member(text: &str, key: &str) -> (r: Option<Option<String>>)
    ensures
        match json_str_member_spec(text@, key@) {
            None => r is None,
            Some(None) => r matches Some(m) && m is None,
            Some(Some(v)) => r matches Some(m) && m matches Some(s) && s@ == v,
        },
{
    match serde_json::from_str::<serde_json::Value>(text) {
        Ok(value) => Some(value.get(key).and_then(serde_json::Value::as_str).map(str::to_string)),
        Err(_) => None,
    }
}

/// Why no API token could be read.
#[derive(Clone, Copy, Debug, PartialEq, Eq, Structural)]
pub enum TokenError {
    /// The file is not JSON.
    InvalidJson,
    /// The file has no string member `API_TOKEN`.
    MissingToken,
}

/// The API token read from the member `API_TOKEN` of an `auth.json`
/// document, given what the parse found: `None` for text that is not JSON,
/// `Some(None)` for a document without a string member `API_TOKEN`, and
/// `Some(Some(t))` for its value `t`.
pub fn api_token_from_member(member: Option<Option<String>>) -> (r: Result<String, TokenError>)
    ensures
        match member {
            None => r == Err::<String, TokenError>(TokenError::InvalidJson),
            Some(None) => r == Err::<String, TokenError>(TokenError::MissingToken),
            Some(Some(t)) => r matches Ok(s) && s@ == t@,
        },
{
    match member {
        None => Err(TokenError::InvalidJson),
        Some(None) => Err(TokenError::MissingToken),
        Some(Some(t)) => Ok(t),
    }
}

/// The API token held by the contents of `auth.json`: its string member
/// `API_TOKEN`.
pub fn api_token_from_auth(contents: &str) -> (r: Result<String, TokenError>)
    ensures
        match json_str_member_spec(contents@, "API_TOKEN"@) {
            None => r == Err::<String, TokenError>(TokenError::InvalidJson),
            Some(None) => r == Err::<String, TokenError>(TokenError::MissingToken),
            Some(Some(t)) => r matches Ok(s) && s@ == t,
        },
{
    api_token_from_member(json_str_member(contents, "API_TOKEN"))
}

} // verus!
