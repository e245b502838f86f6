//! The error taxonomy every SDK call reports failures in.

use crate::text::decimal;
use crate::text::push_char;
use crate::text::str_equal;
use crate::text::u64_text;
use std::time::Duration;
use vstd::prelude::*;

verus! {

/// Error codes returned by the FloopFloop API plus the few the SDK itself
/// produces for transport failures. A server code without a variant of its
/// own is carried verbatim in `Other`.
#[non_exhaustive]
#[derive(Debug, Clone, PartialEq, Eq)]
pub enum FloopErrorCode {
    Unauthorized,
    Forbidden,
    ValidationError,
    RateLimited,
    NotFound,
    Conflict,
    ServiceUnavailable,
    ServerError,
    NetworkError,
    Timeout,
    BuildFailed,
    BuildCancelled,
    Unknown,
    /// Any server code the SDK has no dedicated variant for.
    Other(String),
}

/// The canonical upper-case wire string of a code.
pub open spec fn wire_name(c: FloopErrorCode) -> Seq<char> {
    match c {
        FloopErrorCode::Unauthorized => "UNAUTHORIZED"@,
        FloopErrorCode::Forbidden => "FORBIDDEN"@,
        FloopErrorCode::ValidationError => "VALIDATION_ERROR"@,
        FloopErrorCode::RateLimited => "RATE_LIMITED"@,
        FloopErrorCode::NotFound => "NOT_FOUND"@,
        FloopErrorCode::Conflict => "CONFLICT"@,
        FloopErrorCode::ServiceUnavailable => "SERVICE_UNAVAILABLE"@,
        FloopErrorCode::ServerError => "SERVER_ERROR"@,
        FloopErrorCode::NetworkError => "NETWORK_ERROR"@,
        FloopErrorCode::Timeout => "TIMEOUT"@,
        FloopErrorCode::BuildFailed => "BUILD_FAILED"@,
        FloopErrorCode::BuildCancelled => "BUILD_CANCELLED"@,
        FloopErrorCode::Unknown => "UNKNOWN"@,
        FloopErrorCode::Other(s) => s@,
    }
}

/// The dedicated variant whose wire string is `w`, if there is one.
pub open spec fn named_code(w: Seq<char>) -> Option<FloopErrorCode> {
    if w == "UNAUTHORIZED"@ {
        Some(FloopErrorCode::Unauthorized)
    } else if w == "FORBIDDEN"@ {
        Some(FloopErrorCode::Forbidden)
    } else if w == "VALIDATION_ERROR"@ {
        Some(FloopErrorCode::ValidationError)
    } else if w == "RATE_LIMITED"@ {
        Some(FloopErrorCode::RateLimited)
    } else if w == "NOT_FOUND"@ {
        Some(FloopErrorCode::NotFound)
    } else if w == "CONFLICT"@ {
        Some(FloopErrorCode::Conflict)
    } else if w == "SERVICE_UNAVAILABLE"@ {
        Some(FloopErrorCode::ServiceUnavailable)
    } else if w == "SERVER_ERROR"@ {
        Some(FloopErrorCode::ServerError)
    } else if w == "NETWORK_ERROR"@ {
        Some(FloopErrorCode::NetworkError)
    } else if w == "TIMEOUT"@ {
        Some(FloopErrorCode::Timeout)
    } else if w == "BUILD_FAILED"@ {
        Some(FloopErrorCode::BuildFailed)
    } else if w == "BUILD_CANCELLED"@ {
        Some(FloopErrorCode::BuildCancelled)
    } else if w == "UNKNOWN"@ {
        Some(FloopErrorCode::Unknown)
    } else {
        None
    }
}

/// `c` is the code that the wire string `w` decodes to: its dedicated
/// variant, or `Other` carrying `w` verbatim.
pub open spec fn decodes_to(w: Seq<char>, c: FloopErrorCode) -> bool {
    match named_code(w) {
        Some(k) => c == k,
        None => c matches FloopErrorCode::Other(s) && s@ == w,
    }
}

/// A code in the form decoding produces: `Other` never carries the wire
/// string of a dedicated variant.
pub open spec fn is_canonical(c: FloopErrorCode) -> bool {
    c matches FloopErrorCode::Other(s) ==> named_code(s@) is None
}

impl FloopErrorCode {
    /// The canonical upper-case string used on the wire.
    pub fn as_str(&self) -> (s: &str)
        ensures
            s@ == wire_name(*self),
    {
        match self {
            FloopErrorCode::Unauthorized => "UNAUTHORIZED",
            FloopErrorCode::Forbidden => "FORBIDDEN",
            FloopErrorCode::ValidationError => "VALIDATION_ERROR",
            FloopErrorCode::RateLimited => "RATE_LIMITED",
            FloopErrorCode::NotFound => "NOT_FOUND",
            FloopErrorCode::Conflict => "CONFLICT",
            FloopErrorCode::ServiceUnavailable => "SERVICE_UNAVAILABLE",
            FloopErrorCode::ServerError => "SERVER_ERROR",
            FloopErrorCode::NetworkError => "NETWORK_ERROR",
            FloopErrorCode::Timeout => "TIMEOUT",
            FloopErrorCode::BuildFailed => "BUILD_FAILED",
            FloopErrorCode::BuildCancelled => "BUILD_CANCELLED",
            FloopErrorCode::Unknown => "UNKNOWN",
            FloopErrorCode::Other(s) => s.as_str(),
        }
    }

    /// Decodes a wire code: its dedicated variant, or `Other` verbatim.
    pub fn from_wire(s: &str) -> (c: FloopErrorCode)
        ensures
            decodes_to(s@, c),
            is_canonical(c),
    {
        if str_equal(s, "UNAUTHORIZED") {
            FloopErrorCode::Unauthorized
        } else if str_equal(s, "FORBIDDEN") {
            FloopErrorCode::Forbidden
        } else if str_equal(s, "VALIDATION_ERROR") {
            FloopErrorCode::ValidationError
        } else if str_equal(s, "RATE_LIMITED") {
            FloopErrorCode::RateLimited
        } else if str_equal(s, "NOT_FOUND") {
            FloopErrorCode::NotFound
        } else if str_equal(s, "CONFLICT") {
            FloopErrorCode::Conflict
        } else if str_equal(s, "SERVICE_UNAVAILABLE") {
            FloopErrorCode::ServiceUnavailable
        } else if str_equal(s, "SERVER_ERROR") {
            FloopErrorCode::ServerError
        } else if str_equal(s, "NETWORK_ERROR") {
            FloopErrorCode::NetworkError
        } else if str_equal(s, "TIMEOUT") {
            FloopErrorCode::Timeout
        } else if str_equal(s, "BUILD_FAILED") {
            FloopErrorCode::BuildFailed
        } else if str_equal(s, "BUILD_CANCELLED") {
            FloopErrorCode::BuildCancelled
        } else if str_equal(s, "UNKNOWN") {
            FloopErrorCode::Unknown
        } else {
            FloopErrorCode::Other(s.to_owned())
        }
    }
}

/// Decoding a wire string and writing the code back out gives the same
/// string: unknown server codes round-trip losslessly.
pub proof fn law_wire_string_round_trips(w: Seq<char>, c: FloopErrorCode)
    requires
        decodes_to(w, c),
    ensures
        wire_name(c) == w,
{
}

/// Writing a canonical code out and decoding it gives the same code back.
pub proof fn law_canonical_code_round_trips(c: FloopErrorCode)
    requires
        is_canonical(c),
    ensures
        decodes_to(wire_name(c), c),
{
    reveal_strlit("UNAUTHORIZED");
    reveal_strlit("FORBIDDEN");
    reveal_strlit("VALIDATION_ERROR");
    reveal_strlit("RATE_LIMITED");
    reveal_strlit("NOT_FOUND");
    reveal_strlit("CONFLICT");
    reveal_strlit("SERVICE_UNAVAILABLE");
    reveal_strlit("SERVER_ERROR");
    reveal_strlit("NETWORK_ERROR");
    reveal_strlit("TIMEOUT");
    reveal_strlit("BUILD_FAILED");
    reveal_strlit("BUILD_CANCELLED");
    reveal_strlit("UNKNOWN");
    // Literals of different lengths differ; those of one length differ in
    // their first character.
    assert("UNAUTHORIZED"@.len() == 12);
    assert("FORBIDDEN"@.len() == 9);
    assert("VALIDATION_ERROR"@.len() == 16);
    assert("RATE_LIMITED"@.len() == 12);
    assert("NOT_FOUND"@.len() == 9);
    assert("CONFLICT"@.len() == 8);
    assert("SERVICE_UNAVAILABLE"@.len() == 19);
    assert("SERVER_ERROR"@.len() == 12);
    assert("NETWORK_ERROR"@.len() == 13);
    assert("TIMEOUT"@.len() == 7);
    assert("BUILD_FAILED"@.len() == 12);
    assert("BUILD_CANCELLED"@.len() == 15);
    assert("UNKNOWN"@.len() == 7);
    assert("UNAUTHORIZED"@[0] != "RATE_LIMITED"@[0]);
    assert("UNAUTHORIZED"@[0] != "SERVER_ERROR"@[0]);
    assert("RATE_LIMITED"@[0] != "SERVER_ERROR"@[0]);
    assert("UNAUTHORIZED"@[0] != "BUILD_FAILED"@[0]);
    assert("RATE_LIMITED"@[0] != "BUILD_FAILED"@[0]);
    assert("SERVER_ERROR"@[0] != "BUILD_FAILED"@[0]);
    assert("FORBIDDEN"@[0] != "NOT_FOUND"@[0]);
    assert("TIMEOUT"@[0] != "UNKNOWN"@[0]);
}


/// The one error type every SDK call returns on failure.
#[derive(Debug)]
pub struct FloopError {
    pub code: FloopErrorCode,
    pub status: u16,
    pub message: String,
    pub request_id: Option<String>,
    pub retry_after: Option<Duration>,
}

/// The human-readable form of an error:
/// `floop: [CODE STATUS] message (request ID)`, where the status is left
/// out when it is 0 and the request part when there is no request id.
pub open spec fn display_text(e: FloopError) -> Seq<char> {
    "floop: ["@ + wire_name(e.code) + (if e.status != 0 {
        " "@ + decimal(e.status as nat)
    } else {
        Seq::empty()
    }) + "] "@ + e.message@ + match e.request_id {
        Some(id) => " (request "@ + id@ + ")"@,
        None => Seq::empty(),
    }
}

impl FloopError {
    /// An error with the given code, HTTP status (0 when none) and message,
    /// and neither request id nor retry hint.
    pub fn new(code: FloopErrorCode, status: u16, message: String) -> (e: FloopError)
        ensures
            e.code == code,
            e.status == status,
            e.message == message,
            e.request_id is None,
            e.retry_after is None,
    {
        FloopError { code, status, message, request_id: None, retry_after: None }
    }

    /// The same error, carrying `id` as its request id.
    pub fn with_request_id(self, id: String) -> (e: FloopError)
        ensures
            e.code == self.code,
            e.status == self.status,
            e.message == self.message,
            e.request_id == Some(id),
            e.retry_after == self.retry_after,
    {
        FloopError { request_id: Some(id), ..self }
    }

    /// The same error, carrying `d` as its retry hint.
    pub fn with_retry_after(self, d: Duration) -> (e: FloopError)
        ensures
            e.code == self.code,
            e.status == self.status,
            e.message == self.message,
            e.request_id == self.request_id,
            e.retry_after == Some(d),
    {
        FloopError { retry_after: Some(d), ..self }
    }

    /// The human-readable form of the error (what its `Display` writes).
    pub fn to_string(&self) -> (s: String)
        ensures
            s@ == display_text(*self),
    {
        let mut s = "floop: [".to_owned();
        s.append(self.code.as_str());
        if self.status != 0 {
            push_char(&mut s, ' ');
            let digits = u64_text(self.status as u64);
            s.append(digits.as_str());
        }
        s.append("] ");
        s.append(self.message.as_str());
        match &self.request_id {
            Some(id) => {
                s.append(" (request ");
                s.append(id.as_str());
                s.append(")");
            },
            None => {},
        }
        proof {
            reveal_strlit(" ");
        }
        s
    }
}

/// Which statuses stand for which code: 401, 403, 404, 409, 422, 429 and
/// 503 each for their own code, every other status from 500 on for
/// `ServerError`, and every other status for `Unknown`.
pub proof fn law_status_codes(status: u16)
    ensures
        code_for_status(status) == FloopErrorCode::Unauthorized <==> status == 401,
        code_for_status(status) == FloopErrorCode::Forbidden <==> status == 403,
        code_for_status(status) == FloopErrorCode::NotFound <==> status == 404,
        code_for_status(status) == FloopErrorCode::Conflict <==> status == 409,
        code_for_status(status) == FloopErrorCode::ValidationError <==> status == 422,
        code_for_status(status) == FloopErrorCode::RateLimited <==> status == 429,
        code_for_status(status) == FloopErrorCode::ServiceUnavailable <==> status == 503,
        code_for_status(status) == FloopErrorCode::ServerError <==> status >= 500 && status != 503,
        code_for_status(status) == FloopErrorCode::Unknown <==> status < 500 && status != 401
            && status != 403 && status != 404 && status != 409 && status != 422 && status != 429,
{
}

/// The code an HTTP status stands for when the body names none.
pub open spec fn code_for_status(status: u16) -> FloopErrorCode {
    if status == 401 {
        FloopErrorCode::Unauthorized
    } else if status == 403 {
        FloopErrorCode::Forbidden
    } else if status == 404 {
        FloopErrorCode::NotFound
    } else if status == 409 {
        FloopErrorCode::Conflict
    } else if status == 422 {
        FloopErrorCode::ValidationError
    } else if status == 429 {
        FloopErrorCode::RateLimited
    } else if status == 503 {
        FloopErrorCode::ServiceUnavailable
    } else if status >= 500 {
        FloopErrorCode::ServerError
    } else {
        FloopErrorCode::Unknown
    }
}

/// The code an HTTP status stands for when the body names none.
pub fn default_code_for_status(status: u16) -> (c: FloopErrorCode)
    ensures
        c == code_for_status(status),
{
    match status {
        401 => FloopErrorCode::Unauthorized,
        403 => FloopErrorCode::Forbidden,
        404 => FloopErrorCode::NotFound,
        409 => FloopErrorCode::Conflict,
        422 => FloopErrorCode::ValidationError,
        429 => FloopErrorCode::RateLimited,
        503 => FloopErrorCode::ServiceUnavailable,
        s => if s >= 500 {
            FloopErrorCode::ServerError
        } else {
            FloopErrorCode::Unknown
        },
    }
}

} // verus!
