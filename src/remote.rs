//! The two administrative remote actions: how each call is formed and how
//! its answer is classified.

use vstd::prelude::*;

verus! {

/// The administrative actions the daemon performs on every tick.
#[derive(Clone, Copy, Debug, PartialEq, Eq, Structural)]
pub enum ActionKind {
    /// `DELETE /admin/user-idv-data`
    DeleteUserData,
    /// `POST /admin/transfer-funds`
    TransferFunds,
}

/// HTTP method of a remote call.
#[derive(Clone, Copy, Debug, PartialEq, Eq, Structural)]
pub enum HttpMethod {
    Delete,
    Post,
}

/// Everything needed to issue one remote call.
pub struct RemoteRequest {
    pub method: HttpMethod,
    pub url: String,
    /// Name of the header that carries the credential.
    pub key_header: String,
    /// The credential itself.
    pub api_key: String,
}

pub open spec fn method_of(kind: ActionKind) -> HttpMethod {
    match kind {
        ActionKind::DeleteUserData => HttpMethod::Delete,
        ActionKind::TransferFunds => HttpMethod::Post,
    }
}

pub open spec fn path_of(kind: ActionKind) -> Seq<char> {
    match kind {
        ActionKind::DeleteUserData => "/admin/user-idv-data"@,
        ActionKind::TransferFunds => "/admin/transfer-funds"@,
    }
}

pub open spec fn key_header_name() -> Seq<char> {
    "x-api-key"@
}

/// The path of an action on the administrative service.
pub fn action_path(kind: ActionKind) -> (r: &'static str)
    ensures
        r@ == path_of(kind),
{
    match kind {
        ActionKind::DeleteUserData => "/admin/user-idv-data",
        ActionKind::TransferFunds => "/admin/transfer-funds",
    }
}

/// Forms the call for `kind` against the service at `base_url`.
pub fn build_request(kind: ActionKind, base_url: &str, api_key: &str) -> (r: RemoteRequest)
    ensures
        r.method == method_of(kind),
        r.url@ == base_url@ + path_of(kind),
        r.key_header@ == key_header_name(),
        r.api_key@ == api_key@,
{
    let method = match kind {
        ActionKind::DeleteUserData => HttpMethod::Delete,
        ActionKind::TransferFunds => HttpMethod::Post,
    };
    let url = String::from_str(base_url).concat(action_path(kind));
    RemoteRequest {
        method,
        url,
        key_header: String::from_str("x-api-key"),
        api_key: String::from_str(api_key),
    }
}

/// What a JSON text holds under one key of its top-level object.
#[derive(Clone, Copy, Debug, PartialEq, Eq, Structural)]
pub enum MemberKind {
    /// The text is not JSON.
    Unparsable,
    /// The text is JSON, but not an object.
    NotObject,
    /// An object without the key.
    Absent,
    /// The key holds `null`.
    Null,
    /// The key holds a string.
    Text,
    /// The key holds a number, a boolean, an array or an object.
    OtherValue,
}

/// What `serde_json` finds under `key` when it parses `body`.
pub uninterp spec fn json_member_kind(body: Seq<char>, key: Seq<char>) -> MemberKind;

/// Relies on `serde_json::from_str` into `serde_json::Value` and on
/// `serde_json::Map::get`: parses `body` and reports what its top-level
/// object holds under `key`.
#[verifier::external_body]
fn member_kind(body: &str, key: &str) -> (r: MemberKind)
    ensures
        r == json_member_kind(body@, key@),
{
    match serde_json::from_str::<serde_json::Value>(body) {
        Err(_) => MemberKind::Unparsable,
        Ok(serde_json::Value::Object(m)) => match m.get(key) {
            None => MemberKind::Absent,
            Some(serde_json::Value::Null) => MemberKind::Null,
            Some(serde_json::Value::String(_)) => MemberKind::Text,
            Some(_) => MemberKind::OtherValue,
        },
        Ok(_) => MemberKind::NotObject,
    }
}

/// A member that may hold an optional string: absent, `null` or a string.
pub open spec fn optional_text(k: MemberKind) -> bool {
    k is Absent || k is Null || k is Text
}

/// Whether a response body with these members has the shape that `kind`'s
/// answer must have: an object whose `message` (deletion only) and `error`
/// members are optional strings. Other members may hold anything.
pub open spec fn shape_fits(kind: ActionKind, message: MemberKind, error: MemberKind) -> bool {
    match kind {
        ActionKind::DeleteUserData => optional_text(message) && optional_text(error),
        ActionKind::TransferFunds => optional_text(error),
    }
}

/// Whether the body parses as the answer to `kind`.
pub open spec fn body_fits(kind: ActionKind, body: Seq<char>) -> bool {
    shape_fits(kind, json_member_kind(body, "message"@), json_member_kind(body, "error"@))
}

/// Decides the shape of an answer from what its `message` and `error`
/// members hold.
pub fn members_fit(kind: ActionKind, message: MemberKind, error: MemberKind) -> (r: bool)
    ensures
        r == shape_fits(kind, message, error),
{
    let error_ok = match error {
        MemberKind::Absent | MemberKind::Null | MemberKind::Text => true,
        _ => false,
    };
    let message_ok = match message {
        MemberKind::Absent | MemberKind::Null | MemberKind::Text => true,
        _ => false,
    };
    match kind {
        ActionKind::DeleteUserData => message_ok && error_ok,
        ActionKind::TransferFunds => error_ok,
    }
}

/// Whether `body` is a well-formed answer to `kind`.
pub fn response_fits(kind: ActionKind, body: &str) -> (r: bool)
    ensures
        r == body_fits(kind, body@),
{
    let message = member_kind(body, "message");
    let error = member_kind(body, "error");
    members_fit(kind, message, error)
}

/// What the transport layer reports for one call.
#[derive(Debug)]
pub enum Exchange {
    /// No response was received; `cause` describes why.
    TransportFailed { cause: String },
    /// A response arrived with `status`; `body` is `None` when it could not
    /// be read.
    Answered { status: u16, body: Option<String> },
}

/// The terminal outcome of one remote call. It is logged, never retried and
/// never fed back into scheduling.
#[derive(Debug)]
pub enum Outcome {
    Success { body: String },
    RemoteError { status: u16, body: String },
    ParseError { status: u16 },
    TransportError { cause: String },
}

pub const STATUS_OK: u16 = 200;

/// The outcome of an answered call, given whether its body fits.
pub open spec fn answered_outcome(status: u16, body: Option<String>, fits: bool) -> Outcome {
    match body {
        Some(b) if fits => if status == STATUS_OK {
            Outcome::Success { body: b }
        } else {
            Outcome::RemoteError { status, body: b }
        },
        _ => Outcome::ParseError { status },
    }
}

/// The outcome of an exchange for `kind`.
pub open spec fn outcome_of(kind: ActionKind, exchange: Exchange) -> Outcome {
    match exchange {
        Exchange::TransportFailed { cause } => Outcome::TransportError { cause },
        Exchange::Answered { status, body } => answered_outcome(
            status,
            body,
            body matches Some(b) && body_fits(kind, b@),
        ),
    }
}

/// Classifies an answered call once the shape of its body is known.
pub fn classify_answer(status: u16, body: Option<String>, fits: bool) -> (r: Outcome)
    ensures
        r == answered_outcome(status, body, fits),
{
    match body {
        Some(b) => {
            if !fits {
                Outcome::ParseError { status }
            } else if status == STATUS_OK {
                Outcome::Success { body: b }
            } else {
                Outcome::RemoteError { status, body: b }
            }
        },
        None => Outcome::ParseError { status },
    }
}

/// Classifies what the transport reported for a call of `kind`.
pub fn classify(kind: ActionKind, exchange: Exchange) -> (r: Outcome)
    ensures
        r == outcome_of(kind, exchange),
{
    match exchange {
        Exchange::TransportFailed { cause } => Outcome::TransportError { cause },
        Exchange::Answered { status, body } => {
            let fits = match &body {
                Some(b) => response_fits(kind, b.as_str()),
                None => false,
            };
            classify_answer(status, body, fits)
        },
    }
}

} // verus!
