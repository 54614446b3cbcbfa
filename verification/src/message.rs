//! The message-header pipeline: codec, validator and error responder.
//!
//! An inbound text frame runs through three stages. The codec
//! ([`decode_header`]) turns the raw text into an untyped intermediate record
//! of three strings, ignoring unknown members. The validator
//! ([`validate_header`]) checks every domain invariant and produces a typed
//! [`MessageHeader`], whose existence guarantees a valid identity and a
//! recognized action. Any failure becomes a [`ParseMessageError`], which the
//! responder renders as a fixed-shape JSON error envelope.

use vstd::prelude::*;
use vstd::string::StringExecFns;
use crate::identity::{parse_uuid, uuid_of};
use crate::json::{
    decode_envelope_fields, encode_envelope, envelope_fields_of, envelope_json_of,
    get_str_field, json_fields_of, parse_json_object,
};

verus! {

/// The declared intent of an inbound message. The set is closed: any other
/// textual action is rejected during validation and never reaches downstream
/// dispatch.
#[derive(Clone, Copy, Debug, PartialEq, Eq, Structural)]
pub enum MessageAction {
    CreateSession,
    JoinSession,
}

/// The action a textual value denotes: an exact, case-sensitive match against
/// the two recognized literals.
pub open spec fn action_of(s: Seq<char>) -> Option<MessageAction> {
    if s == "create_session"@ {
        Some(MessageAction::CreateSession)
    } else if s == "join_session"@ {
        Some(MessageAction::JoinSession)
    } else {
        None
    }
}

/// The validated, typed outcome of the pipeline. A value of this type is
/// always fully valid: its identity parsed as a UUID and its action is one of
/// the two known variants. The session identifier is opaque at this layer and
/// carried through verbatim.
#[derive(Debug)]
pub struct MessageHeader {
    pub action: MessageAction,
    pub session_id: String,
    pub user_id: u128,
}

/// The mathematical value of a [`MessageHeader`].
pub struct HeaderView {
    pub action: MessageAction,
    pub session_id: Seq<char>,
    pub user_id: u128,
}

impl View for MessageHeader {
    type V = HeaderView;

    open spec fn view(&self) -> HeaderView {
        HeaderView {
            action: self.action,
            session_id: self.session_id@,
            user_id: self.user_id,
        }
    }
}

impl PartialEq for MessageHeader {
    fn eq(&self, other: &Self) -> (r: bool) {
        self.action == other.action && self.session_id == other.session_id
            && self.user_id == other.user_id
    }
}

impl vstd::std_specs::cmp::PartialEqSpecImpl for MessageHeader {
    open spec fn obeys_eq_spec() -> bool {
        true
    }

    open spec fn eq_spec(&self, other: &Self) -> bool {
        self@ == other@
    }
}

/// The untyped intermediate record the codec decodes a payload into. It
/// carries no invariants; it exists purely as the decode target before
/// validation.
#[derive(Debug)]
pub struct MessageHeaderJson {
    pub action: String,
    pub session_id: String,
    pub user_id: String,
}

impl MessageHeaderJson {
    /// The record rendered for diagnostics, one `key=value;` group per field.
    pub fn display_string(&self) -> (r: String)
        ensures
            r@ == "action="@ + self.action@ + ";session_id="@ + self.session_id@ + ";user_id="@
                + self.user_id@ + ";"@,
    {
        "action=".to_owned()
            .concat(self.action.as_str())
            .concat(";session_id=")
            .concat(self.session_id.as_str())
            .concat(";user_id=")
            .concat(self.user_id.as_str())
            .concat(";")
    }
}

/// A failure of the codec or the validator: a single message describing the
/// cause. The responder needs no case analysis on it.
#[derive(Debug)]
pub struct ParseMessageError {
    pub message: String,
}

/// The cause reported when the payload is not a JSON object with the three
/// required string members.
pub open spec fn malformed_payload_msg() -> Seq<char> {
    "we could not parse string provided into a valid JSON Object. Check for syntax errors."@
}

/// The cause reported when `user_id` is no parseable UUID.
pub open spec fn invalid_identity_msg() -> Seq<char> {
    "we could not parse string provided for 'user_id' into a valid UUID."@
}

/// The cause reported when `action` matches no recognized literal: it carries
/// the offending value for caller diagnosability.
pub open spec fn unrecognized_action_msg(action: Seq<char>) -> Seq<char> {
    "Invalid action received: "@ + action
}

/// The three string fields the codec extracts from a payload: `Some` exactly
/// when the payload decodes as a JSON document whose top level holds
/// string-valued `action`, `session_id` and `user_id` members.
pub open spec fn wire_record_of(s: Seq<char>) -> Option<(Seq<char>, Seq<char>, Seq<char>)> {
    match json_fields_of(s) {
        Some(fields) => {
            if fields.dom().contains("action"@) && fields.dom().contains("session_id"@)
                && fields.dom().contains("user_id"@) {
                Some((fields["action"@], fields["session_id"@], fields["user_id"@]))
            } else {
                None
            }
        },
        None => None,
    }
}

/// What validating an intermediate record yields: the identity is checked
/// first, then the action; the session identifier is carried through
/// verbatim. `Err` holds the reported cause.
pub open spec fn spec_validate(
    action: Seq<char>,
    session_id: Seq<char>,
    user_id: Seq<char>,
) -> Result<HeaderView, Seq<char>> {
    match uuid_of(user_id) {
        None => Err(invalid_identity_msg()),
        Some(uid) => match action_of(action) {
            None => Err(unrecognized_action_msg(action)),
            Some(a) => Ok(HeaderView { action: a, session_id: session_id, user_id: uid }),
        },
    }
}

/// What the whole pipeline yields on a raw payload: the typed header, or the
/// cause of the first failing check.
pub open spec fn spec_parse_header(s: Seq<char>) -> Result<HeaderView, Seq<char>> {
    match wire_record_of(s) {
        None => Err(malformed_payload_msg()),
        Some(rec) => spec_validate(rec.0, rec.1, rec.2),
    }
}

/// How an executable parse result relates to the pipeline's mathematical
/// outcome on the same input.
pub open spec fn parse_result_models(
    s: Seq<char>,
    r: Result<MessageHeader, ParseMessageError>,
) -> bool {
    match spec_parse_header(s) {
        Ok(h) => r matches Ok(hdr) && hdr@ == h,
        Err(m) => r matches Err(e) && e.message@ == m,
    }
}

fn malformed_payload_error() -> (e: ParseMessageError)
    ensures
        e.message@ == malformed_payload_msg(),
{
    ParseMessageError {
        message: "we could not parse string provided into a valid JSON Object. Check for syntax errors.".to_owned(),
    }
}

/// The codec: decode a raw payload into the intermediate record. Unknown
/// extra members are ignored; a payload that is not a JSON object with the
/// three required string members fails, and no partial record is ever
/// returned.
pub fn decode_header(text: &str) -> (r: Result<MessageHeaderJson, ParseMessageError>)
    ensures
        match wire_record_of(text@) {
            Some(rec) => r matches Ok(j) && j.action@ == rec.0 && j.session_id@ == rec.1
                && j.user_id@ == rec.2,
            None => r matches Err(e) && e.message@ == malformed_payload_msg(),
        },
{
    let v = match parse_json_object(text) {
        Some(v) => v,
        None => {
            return Err(malformed_payload_error());
        },
    };
    let action = match get_str_field(&v, "action") {
        Some(s) => s,
        None => {
            return Err(malformed_payload_error());
        },
    };
    let session_id = match get_str_field(&v, "session_id") {
        Some(s) => s,
        None => {
            return Err(malformed_payload_error());
        },
    };
    let user_id = match get_str_field(&v, "user_id") {
        Some(s) => s,
        None => {
            return Err(malformed_payload_error());
        },
    };
    Ok(MessageHeaderJson { action, session_id, user_id })
}

/// The validator: check the intermediate record's domain invariants and build
/// the typed header. The identity is checked first; the action must match one
/// of the two recognized literals exactly; the session identifier is accepted
/// verbatim, the empty string included.
pub fn validate_header(header_json: MessageHeaderJson) -> (r: Result<MessageHeader, ParseMessageError>)
    ensures
        match spec_validate(header_json.action@, header_json.session_id@, header_json.user_id@) {
            Ok(h) => r matches Ok(hdr) && hdr@ == h,
            Err(m) => r matches Err(e) && e.message@ == m,
        },
{
    let user_id: u128 = match parse_uuid(header_json.user_id.as_str()) {
        Some(u) => u,
        None => {
            return Err(ParseMessageError {
                message: "we could not parse string provided for 'user_id' into a valid UUID.".to_owned(),
            });
        },
    };
    let action = if header_json.action == "create_session".to_owned() {
        MessageAction::CreateSession
    } else if header_json.action == "join_session".to_owned() {
        MessageAction::JoinSession
    } else {
        return Err(ParseMessageError {
            message: "Invalid action received: ".to_owned().concat(header_json.action.as_str()),
        });
    };
    Ok(MessageHeader { action, session_id: header_json.session_id, user_id })
}

/// The whole pipeline: decode a raw payload and validate it. The result is a
/// function of the payload alone — there is no hidden state, and re-parsing
/// the same input yields the same outcome.
pub fn parse_header(message: &str) -> (r: Result<MessageHeader, ParseMessageError>)
    ensures
        parse_result_models(message@, r),
{
    let header_json = match decode_header(message) {
        Ok(j) => j,
        Err(e) => {
            return Err(e);
        },
    };
    validate_header(header_json)
}

/// Parsing is idempotent: any two results that the pipeline's contract admits
/// for the same input are the same value — the same header, or a failure with
/// the same message.
pub proof fn lemma_parse_header_idempotent(
    s: Seq<char>,
    r1: Result<MessageHeader, ParseMessageError>,
    r2: Result<MessageHeader, ParseMessageError>,
)
    requires
        parse_result_models(s, r1),
        parse_result_models(s, r2),
    ensures
        match (r1, r2) {
            (Ok(h1), Ok(h2)) => h1@ == h2@,
            (Err(e1), Err(e2)) => e1.message@ == e2.message@,
            _ => false,
        },
{
}

/// The error envelope sent back over the connection on any failure: a fixed
/// `status_code`/`status` pair, with the varying detail confined to
/// `message`. Constructed fresh per failure, serialized once, never stored.
#[derive(Debug)]
pub struct ResponseMessageJson {
    pub status_code: u16,
    pub status: String,
    pub message: String,
}

impl PartialEq for ResponseMessageJson {
    fn eq(&self, other: &Self) -> (r: bool) {
        self.status_code == other.status_code && self.status == other.status
            && self.message == other.message
    }
}

impl vstd::std_specs::cmp::PartialEqSpecImpl for ResponseMessageJson {
    open spec fn obeys_eq_spec() -> bool {
        true
    }

    open spec fn eq_spec(&self, other: &Self) -> bool {
        self.status_code == other.status_code && self.status@ == other.status@
            && self.message@ == other.message@
    }
}

/// How a responder's output relates to the failure message it reports:
/// either the serialized envelope — which carries the fixed `400` /
/// `bad_request` pair and decodes back to exactly the fields that went in —
/// or, if serialization itself failed, the raw message unformatted, so the
/// caller always receives something usable.
pub open spec fn response_string_models(msg: Seq<char>, r: Seq<char>) -> bool {
    ||| (r == envelope_json_of(400, "bad_request"@, msg) && envelope_fields_of(r) == Some(
        (400u16, "bad_request"@, msg),
    ))
    ||| r == msg
}

/// The explicit fallback branch of the responder: hand the serialized
/// envelope through when there is one, and the raw message otherwise.
fn envelope_or_fallback(encoded: Option<String>, fallback: String) -> (r: String)
    ensures
        match encoded {
            Some(s) => r@ == s@,
            None => r@ == fallback@,
        },
{
    match encoded {
        Some(s) => s,
        None => fallback,
    }
}

/// A failure that can be reported to the client as a JSON error envelope.
pub trait ResponseJsonString {
    /// The full human-readable message the responder reports.
    spec fn response_message(&self) -> Seq<char>;

    fn get_message(&self) -> (r: String)
        ensures
            r@ == self.response_message(),
    ;

    /// The responder: render the failure as the wire envelope. Every failure
    /// is surfaced as `status_code = 400`, `status = "bad_request"`; only the
    /// `message` field varies.
    fn get_response_json_string(&self) -> (r: String)
        ensures
            response_string_models(self.response_message(), r@),
    {
        let response_json = ResponseMessageJson {
            status_code: 400,
            status: "bad_request".to_owned(),
            message: self.get_message(),
        };
        let encoded = encode_envelope(
            response_json.status_code,
            response_json.status.as_str(),
            response_json.message.as_str(),
        );
        envelope_or_fallback(encoded, response_json.message)
    }
}

impl ResponseJsonString for ParseMessageError {
    /// Every cause is reported behind one fixed, recognizable prefix.
    open spec fn response_message(&self) -> Seq<char> {
        "Error parsing message: "@ + self.message@
    }

    fn get_message(&self) -> (r: String) {
        "Error parsing message: ".to_owned().concat(self.message.as_str())
    }
}

/// Decode a text as an error envelope. This is the inverse direction of the
/// responder: an envelope it produced decodes back to the very fields that
/// went in.
pub fn decode_envelope(text: &str) -> (r: Option<ResponseMessageJson>)
    ensures
        match envelope_fields_of(text@) {
            Some(f) => r matches Some(env) && env.status_code == f.0 && env.status@ == f.1
                && env.message@ == f.2,
            None => r is None,
        },
{
    match decode_envelope_fields(text) {
        Some(fields) => Some(
            ResponseMessageJson {
                status_code: fields.0,
                status: fields.1,
                message: fields.2,
            },
        ),
        None => None,
    }
}

/// Action-specific request payload for creating a session: a validated
/// header plus the requested session name. Owned transiently by the caller
/// that dispatches on the header's action.
pub struct CreateSessionMessage {
    pub header: MessageHeader,
    pub session_name: String,
}

/// Action-specific request payload for joining a session: a validated header
/// plus the target session reinterpreted as a UUID value and the joining
/// user's name. Owned transiently by the caller that dispatches on the
/// header's action.
pub struct JoinSessionMessage {
    pub header: MessageHeader,
    pub session_id: u128,
    pub user_name: String,
}

} // verus!
