//! What a finished HTTP exchange means: the success body with its `data`
//! envelope removed, or a typed error read from the error envelope.

use crate::error::code_for_status;
use crate::error::decodes_to;
use crate::error::wire_name;
use crate::error::default_code_for_status;
use crate::error::FloopError;
use crate::error::FloopErrorCode;
use crate::json::json_get;
use crate::json::json_is_object;
use crate::json::json_as_str;
use crate::json::json_member;
use crate::json::json_parse;
use crate::json::json_shape;
use crate::json::json_text;
use crate::json::json_to_text;
use crate::json::member_text;
use crate::json::parse_json;
use crate::text::decimal;
use crate::text::u64_text;
use std::time::Duration;
use vstd::prelude::*;

verus! {

/// The default message of a failed request: `request failed (STATUS)`.
pub open spec fn failure_text(status: u16) -> Seq<char> {
    "request failed ("@ + decimal(status as nat) + ")"@
}

/// The `error` member of a JSON body, when the body is an object whose
/// `error` member is itself an object.
pub open spec fn error_object(raw: Seq<char>) -> Option<serde_json::Value> {
    match json_parse(raw) {
        Ok(v) => match json_member(v, "error"@) {
            Some(e) => if json_shape(e) is Object {
                Some(e)
            } else {
                None
            },
            None => None,
        },
        Err(_) => None,
    }
}

/// `code` and `message` are what an error body `raw` with HTTP status
/// `status` reports: the envelope's code (or the status's default code) and
/// the envelope's message (or the default message).
pub open spec fn envelope_reading(
    raw: Seq<char>,
    status: u16,
    code: FloopErrorCode,
    message: Seq<char>,
) -> bool {
    match error_object(raw) {
        Some(e) => {
            &&& match member_text(e, "code"@) {
                Some(w) => decodes_to(w, code),
                None => code == code_for_status(status),
            }
            &&& message == match member_text(e, "message"@) {
                Some(m) => m,
                None => failure_text(status),
            }
        },
        None => code == code_for_status(status) && message == failure_text(status),
    }
}

/// The server's code wins: when the error body names a code `w`, the error
/// carries a code whose wire string is `w` itself (a code without a
/// variant of its own is kept verbatim), whatever the HTTP status; two
/// responses with the same body and different statuses carry codes with
/// the same wire string.
pub proof fn law_envelope_code_wins(
    raw: Seq<char>,
    status: u16,
    code: FloopErrorCode,
    message: Seq<char>,
    other_status: u16,
    other_code: FloopErrorCode,
    other_message: Seq<char>,
)
    requires
        envelope_reading(raw, status, code, message),
        envelope_reading(raw, other_status, other_code, other_message),
    ensures
        error_object(raw) matches Some(e) ==> (member_text(e, "code"@) matches Some(w) ==> (
        wire_name(code) == w && wire_name(other_code) == w)),
{
    if let Some(e) = error_object(raw) {
        if let Some(w) = member_text(e, "code"@) {
            lemma_decoded_code_keeps_wire(w, code);
            lemma_decoded_code_keeps_wire(w, other_code);
        }
    }
}

proof fn lemma_decoded_code_keeps_wire(w: Seq<char>, c: FloopErrorCode)
    requires
        decodes_to(w, c),
    ensures
        wire_name(c) == w,
{
}

/// The inner value of a `{"data": ...}` envelope.
pub open spec fn data_member(raw: Seq<char>) -> Option<serde_json::Value> {
    match json_parse(raw) {
        Ok(v) => json_member(v, "data"@),
        Err(_) => None,
    }
}

/// Whether an HTTP status is a success (2xx).
pub open spec fn is_success(status: u16) -> bool {
    200 <= status <= 299
}

fn failure_message(status: u16) -> (s: String)
    ensures
        s@ == failure_text(status),
{
    let mut s = "request failed (".to_owned();
    let digits = u64_text(status as u64);
    s.append(digits.as_str());
    s.append(")");
    s
}

/// Reads the code and message of an error response body.
pub fn parse_error_envelope(raw: &str, status: u16) -> (res: (FloopErrorCode, String))
    ensures
        envelope_reading(raw@, status, res.0, res.1@),
{
    let parsed = parse_json(raw);
    if let Ok(v) = &parsed {
        if let Some(err) = json_get(v, "error") {
            if json_is_object(err) {
                let code = match json_get(err, "code") {
                    Some(c) => match json_as_str(c) {
                        Some(w) => FloopErrorCode::from_wire(w.as_str()),
                        None => default_code_for_status(status),
                    },
                    None => default_code_for_status(status),
                };
                let message = match json_get(err, "message") {
                    Some(m) => match json_as_str(m) {
                        Some(text) => text,
                        None => failure_message(status),
                    },
                    None => failure_message(status),
                };
                return (code, message);
            }
        }
    }
    (default_code_for_status(status), failure_message(status))
}

/// The inner JSON text of a `{"data": ...}` envelope, or `None` when the
/// body has no such envelope.
pub fn unwrap_data_envelope(raw: &str) -> (res: Option<String>)
    ensures
        match data_member(raw@) {
            Some(d) => res matches Some(inner) && inner@ == json_text(d),
            None => res is None,
        },
{
    match parse_json(raw) {
        Ok(v) => match json_get(&v, "data") {
            Some(inner) => Some(json_to_text(inner)),
            None => None,
        },
        Err(_) => None,
    }
}

/// The outcome of a completed request: for a 2xx status the body with its
/// `data` envelope unwrapped (or the raw body when there is none); for any
/// other status the error the body reports, carrying the status, the
/// request id and the retry hint of the response.
pub fn interpret_response(
    status: u16,
    raw: String,
    request_id: Option<String>,
    retry_after: Option<Duration>,
) -> (res: Result<String, FloopError>)
    ensures
        res is Ok <==> is_success(status),
        res matches Ok(body) ==> body@ == match data_member(raw@) {
            Some(d) => json_text(d),
            None => raw@,
        },
        res matches Err(e) ==> {
            &&& e.status == status
            &&& e.request_id == request_id
            &&& e.retry_after == retry_after
            &&& envelope_reading(raw@, status, e.code, e.message@)
        },
{
    if !(200 <= status && status <= 299) {
        let (code, message) = parse_error_envelope(raw.as_str(), status);
        return Err(FloopError { code, status, message, request_id, retry_after });
    }
    match unwrap_data_envelope(raw.as_str()) {
        Some(inner) => Ok(inner),
        None => Ok(raw),
    }
}

/// The error for a request that never got a response: `Timeout` with
/// `request timed out`, or `NetworkError` with
/// `could not reach BASE_URL (DETAIL)`.
pub fn send_failure(timed_out: bool, base_url: &str, detail: &str) -> (e: FloopError)
    ensures
        e.status == 0,
        e.request_id is None,
        e.retry_after is None,
        timed_out ==> e.code == FloopErrorCode::Timeout && e.message@ == "request timed out"@,
        !timed_out ==> e.code == FloopErrorCode::NetworkError && e.message@ == "could not reach "@
            + base_url@ + " ("@ + detail@ + ")"@,
{
    if timed_out {
        FloopError::new(FloopErrorCode::Timeout, 0, "request timed out".to_owned())
    } else {
        let mut m = "could not reach ".to_owned();
        m.append(base_url);
        m.append(" (");
        m.append(detail);
        m.append(")");
        FloopError::new(FloopErrorCode::NetworkError, 0, m)
    }
}

/// The error for a response whose body could not be read:
/// `NetworkError` with `failed to read response: DETAIL`.
pub fn read_failure(status: u16, detail: &str) -> (e: FloopError)
    ensures
        e.code == FloopErrorCode::NetworkError,
        e.status == status,
        e.message@ == "failed to read response: "@ + detail@,
        e.request_id is None,
        e.retry_after is None,
{
    let mut m = "failed to read response: ".to_owned();
    m.append(detail);
    FloopError::new(FloopErrorCode::NetworkError, status, m)
}

/// The error for a body that does not decode into the expected shape:
/// `Unknown` with `failed to decode response: DETAIL`.
pub fn decode_failure(detail: &str) -> (e: FloopError)
    ensures
        e.code == FloopErrorCode::Unknown,
        e.status == 0,
        e.message@ == "failed to decode response: "@ + detail@,
        e.request_id is None,
        e.retry_after is None,
{
    let mut m = "failed to decode response: ".to_owned();
    m.append(detail);
    FloopError::new(FloopErrorCode::Unknown, 0, m)
}

} // verus!
