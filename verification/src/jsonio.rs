//! Reading the token endpoint's JSON answers. serde_json's extraction is
//! a function of the body bytes alone, so each extraction carries a name:
//! whether the bytes parse as a document, and what the named members are.
//! The trusted wrappers tie their results to those names, and everything
//! downstream (`Broker::apply_token_response`) is verified against them.

use vstd::prelude::*;

verus! {

/// Whether the bytes parse as one JSON document. A function of the bytes
/// alone.
pub uninterp spec fn json_parses(body: Seq<u8>) -> bool;

/// Whether the JSON document in `body` is an object with a member of this
/// key; false wherever the bytes are no document. A function of the bytes
/// alone.
pub uninterp spec fn json_field_present(body: Seq<u8>, key: Seq<char>) -> bool;

/// The string member of this key in the JSON document in `body`: its text
/// when the member exists and is a JSON string, absent otherwise. A
/// function of the bytes alone.
pub uninterp spec fn json_string_field(body: Seq<u8>, key: Seq<char>) -> Option<Seq<char>>;

/// The integer member of this key in the JSON document in `body`: its
/// value when the member exists and is an integer between 0 and u64::MAX,
/// absent otherwise. A function of the bytes alone.
pub uninterp spec fn json_u64_field(body: Seq<u8>, key: Seq<char>) -> Option<u64>;

/// The view of an optionally extracted string.
pub open spec fn opt_str_view(o: Option<String>) -> Option<Seq<char>> {
    match o {
        Some(s) => Some(s@),
        None => None,
    }
}

/// Relies on serde_json::from_slice: whether the body is one valid JSON
/// document (an invalid body returns an error, never a panic).
#[verifier::external_body]
fn parse_ok(body: &[u8]) -> (r: bool)
    ensures
        r == json_parses(body@),
{
    serde_json::from_slice::<serde_json::Value>(body).is_ok()
}

/// Relies on serde_json::from_slice and serde_json::Value::get: whether
/// the body's document has a member of this key. A body that is no JSON
/// document has none.
#[verifier::external_body]
fn field_present(body: &[u8], key: &str) -> (r: bool)
    ensures
        r == json_field_present(body@, key@),
        !json_parses(body@) ==> !r,
{
    match serde_json::from_slice::<serde_json::Value>(body) {
        Ok(v) => v.get(key).is_some(),
        Err(_) => false,
    }
}

/// Relies on serde_json::from_slice, serde_json::Value::get and
/// serde_json::Value::as_str: the string member of this key, when the
/// body is a JSON document carrying one. A missing member, or one of
/// another type, gives nothing.
#[verifier::external_body]
fn string_field(body: &[u8], key: &str) -> (r: Option<String>)
    ensures
        opt_str_view(r) == json_string_field(body@, key@),
        !json_parses(body@) ==> r is None,
        !json_field_present(body@, key@) ==> r is None,
{
    match serde_json::from_slice::<serde_json::Value>(body) {
        Ok(v) => v.get(key).and_then(|f| f.as_str()).map(|s| s.to_owned()),
        Err(_) => None,
    }
}

/// Relies on serde_json::from_slice, serde_json::Value::get and
/// serde_json::Value::as_u64: the integer member of this key, when the
/// body is a JSON document carrying one that fits a u64. A missing
/// member, or one of another type, gives nothing.
#[verifier::external_body]
fn u64_field(body: &[u8], key: &str) -> (r: Option<u64>)
    ensures
        r == json_u64_field(body@, key@),
        !json_parses(body@) ==> r is None,
{
    match serde_json::from_slice::<serde_json::Value>(body) {
        Ok(v) => v.get(key).and_then(|f| f.as_u64()),
        Err(_) => None,
    }
}

/// What the broker reads out of a token-endpoint HTTP response: the status
/// line and the three JSON fields of interest. A field is `None` when the
/// body has no such member or the member has the wrong type.
pub struct TokenEndpointReply {
    /// HTTP status of the response.
    pub status: u16,
    /// Whether the body parsed as a JSON document at all.
    pub json_ok: bool,
    /// The `access_token` string, if present.
    pub access_token: Option<String>,
    /// The `refresh_token` string, if present.
    pub refresh_token: Option<String>,
    /// The `expires_in` non-negative integer, if present.
    pub expires_in: Option<u64>,
}

/// Extract the fields of a token-endpoint response: exactly the named
/// members of the body.
pub fn parse_token_reply(status: u16, body: &[u8]) -> (r: TokenEndpointReply)
    ensures
        r.status == status,
        r.json_ok == json_parses(body@),
        opt_str_view(r.access_token) == json_string_field(body@, ("access_token")@),
        opt_str_view(r.refresh_token) == json_string_field(body@, ("refresh_token")@),
        r.expires_in == json_u64_field(body@, ("expires_in")@),
        !r.json_ok ==> r.access_token is None && r.refresh_token is None && r.expires_in is None,
{
    TokenEndpointReply {
        status,
        json_ok: parse_ok(body),
        access_token: string_field(body, "access_token"),
        refresh_token: string_field(body, "refresh_token"),
        expires_in: u64_field(body, "expires_in"),
    }
}

/// Why a user-settings body yields no timezone.
#[derive(Clone, Copy, Debug, PartialEq, Eq, Structural)]
pub enum SettingsError {
    /// The body is no JSON document.
    MalformedBody,
    /// The document has no `value` member.
    NoTimezone,
    /// The document's `value` member is not a string.
    InvalidTimezone,
}

/// The calendar timezone in a user-settings response body: its `value`
/// string member, with each way of lacking one reported apart.
pub fn timezone_from_settings(body: &[u8]) -> (r: Result<String, SettingsError>)
    ensures
        !json_parses(body@) ==> r == Err::<String, SettingsError>(SettingsError::MalformedBody),
        json_parses(body@) && !json_field_present(body@, ("value")@) ==> r == Err::<
            String,
            SettingsError,
        >(SettingsError::NoTimezone),
        json_parses(body@) && json_field_present(body@, ("value")@) && json_string_field(
            body@,
            ("value")@,
        ) is None ==> r == Err::<String, SettingsError>(SettingsError::InvalidTimezone),
        (match r {
            Ok(v) => json_string_field(body@, ("value")@) == Some(v@),
            Err(_) => json_string_field(body@, ("value")@) is None,
        }),
{
    let parses = parse_ok(body);
    let present = field_present(body, "value");
    let value = string_field(body, "value");
    if !parses {
        return Err(SettingsError::MalformedBody);
    }
    if !present {
        return Err(SettingsError::NoTimezone);
    }
    match value {
        Some(v) => Ok(v),
        None => Err(SettingsError::InvalidTimezone),
    }
}

} // verus!
