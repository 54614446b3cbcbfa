//! Trusted boundary to the JSON codec.
//!
//! Every call into `serde_json` made by this crate goes through one of the
//! wrappers below. Their contracts speak of uninterpreted names for what the
//! codec computes; the verified logic in `message` is proved against those
//! names alone.

use vstd::prelude::*;

verus! {

#[verifier::external_type_specification]
#[verifier::external_body]
pub struct ExValue(serde_json::Value);

/// What `serde_json::from_str::<Value>` yields on a given text: `Some` exactly
/// when the codec accepts the text as a JSON document, and then the map from
/// the document's top-level string-valued object members to their values (the
/// empty map when the document is not an object).
pub uninterp spec fn json_fields_of(s: Seq<char>) -> Option<Map<Seq<char>, Seq<char>>>;

/// The top-level string-valued object members held by a decoded JSON value.
pub uninterp spec fn json_str_fields(v: serde_json::Value) -> Map<Seq<char>, Seq<char>>;

/// Relies on `serde_json::from_str::<Value>`: it succeeds exactly on
/// well-formed JSON documents, and the value it returns is a function of the
/// input text alone.
#[verifier::external_body]
pub(crate) fn parse_json_object(s: &str) -> (r: Option<serde_json::Value>)
    ensures
        r is Some <==> json_fields_of(s@) is Some,
        r matches Some(v) ==> json_str_fields(v) == json_fields_of(s@).unwrap(),
{
    serde_json::from_str::<serde_json::Value>(s).ok()
}

/// Relies on `serde_json::Value::get` and `serde_json::Value::as_str`: `get`
/// looks a key up among the members of a JSON object (`None` on any other
/// value), and `as_str` tells the string variant apart from the rest.
#[verifier::external_body]
pub(crate) fn get_str_field(v: &serde_json::Value, key: &str) -> (r: Option<String>)
    ensures
        r is Some <==> json_str_fields(*v).dom().contains(key@),
        r matches Some(s) ==> s@ == json_str_fields(*v)[key@],
{
    v.get(key).and_then(serde_json::Value::as_str).map(str::to_owned)
}

/// The JSON text that serializing an error envelope with the given fields
/// produces.
pub uninterp spec fn envelope_json_of(status_code: u16, status: Seq<char>, message: Seq<char>) -> Seq<char>;

/// What decoding a text as an error envelope yields: `Some` of the three
/// fields exactly when the codec accepts the text as a JSON object holding a
/// numeric `status_code` that fits a `u16` and string `status` and `message`
/// members.
pub uninterp spec fn envelope_fields_of(s: Seq<char>) -> Option<(u16, Seq<char>, Seq<char>)>;

/// Relies on `serde_json::to_string` applied to a `Value::Object` built from
/// the three arguments: the text it produces is a function of the arguments
/// alone, and `serde_json` reads back from that text the very fields it
/// serialized.
#[verifier::external_body]
pub(crate) fn encode_envelope(status_code: u16, status: &str, message: &str) -> (r: Option<String>)
    ensures
        r matches Some(s) ==> s@ == envelope_json_of(status_code, status@, message@),
        r matches Some(s) ==> envelope_fields_of(s@) == Some((status_code, status@, message@)),
{
    let mut fields = serde_json::Map::new();
    fields.insert(String::from("status_code"), serde_json::Value::from(status_code));
    fields.insert(String::from("status"), serde_json::Value::from(status));
    fields.insert(String::from("message"), serde_json::Value::from(message));
    serde_json::to_string(&serde_json::Value::Object(fields)).ok()
}

/// Relies on `serde_json::from_str::<Value>`, `Value::get`, `Value::as_u64`
/// and `Value::as_str` to read an error envelope's three fields back out of a
/// text; what they yield is a function of the text alone.
#[verifier::external_body]
pub(crate) fn decode_envelope_fields(s: &str) -> (r: Option<(u16, String, String)>)
    ensures
        r is Some <==> envelope_fields_of(s@) is Some,
        r matches Some(t) ==> envelope_fields_of(s@) == Some((t.0, t.1@, t.2@)),
{
    let v: serde_json::Value = serde_json::from_str(s).ok()?;
    let code = v.get("status_code")?.as_u64()?;
    let code: u16 = u16::try_from(code).ok()?;
    let status = v.get("status")?.as_str()?;
    let message = v.get("message")?.as_str()?;
    Some((code, status.to_owned(), message.to_owned()))
}

} // verus!
