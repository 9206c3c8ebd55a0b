//! Response status tokens: their wire tokens, the legacy HTTP status
//! codes used for gateway interoperability, and the derived status class.

use crate::bytes::bytes_eq;
use vstd::prelude::*;

verus! {

/// Response status tokens: human-readable wire tokens in place of the
/// legacy numeric HTTP status codes. Parsing is lenient by design:
/// an unrecognized wire token yields `InternalError` rather than an error,
/// since status tokens travel on the wire and must not abort response
/// processing.
#[derive(Clone, Copy, Debug, PartialEq, Eq, Hash, Structural)]
pub enum StatusToken {
    /// Continue with the request (legacy HTTP 100).
    Continue,
    /// Protocol upgrade accepted (legacy HTTP 101).
    SwitchingProtocols,
    /// Request succeeded (legacy HTTP 200).
    Okay,
    /// New resource created (legacy HTTP 201).
    Created,
    /// Request accepted, processing asynchronously (legacy HTTP 202).
    Accepted,
    /// Success, no body to return (legacy HTTP 204).
    NoContent,
    /// Partial resource returned (legacy HTTP 206).
    PartialContent,
    /// Resource permanently moved (legacy HTTP 301).
    MovedPermanently,
    /// Resource temporarily at a different URI (legacy HTTP 302).
    Found,
    /// Result available at a different URI (legacy HTTP 303).
    SeeOther,
    /// Cached version still valid (legacy HTTP 304).
    NotModified,
    /// Temporarily at a different URI, preserve the method (legacy HTTP 307).
    TemporaryRedirect,
    /// Permanently moved, preserve the method (legacy HTTP 308).
    PermanentRedirect,
    /// Malformed request (legacy HTTP 400).
    BadRequest,
    /// Authentication required (legacy HTTP 401).
    Unauthorized,
    /// Access denied (legacy HTTP 403).
    Forbidden,
    /// Resource does not exist (legacy HTTP 404).
    NotFound,
    /// Method not supported for the resource (legacy HTTP 405).
    MethodNotAllowed,
    /// Request conflicts with the current state (legacy HTTP 409).
    Conflict,
    /// Resource permanently removed (legacy HTTP 410).
    Gone,
    /// Request body exceeds limits (legacy HTTP 413).
    PayloadTooLarge,
    /// Content type not supported (legacy HTTP 415).
    UnsupportedMediaType,
    /// Rate limit exceeded (legacy HTTP 429).
    TooManyRequests,
    /// Generic server error (legacy HTTP 500); also the lenient default for unrecognized wire tokens.
    InternalError,
    /// Method not supported (legacy HTTP 501).
    NotImplemented,
    /// Invalid upstream response (legacy HTTP 502).
    BadGateway,
    /// Temporarily unavailable (legacy HTTP 503).
    ServiceUnavailable,
    /// Upstream timeout (legacy HTTP 504).
    GatewayTimeout,
}

/// The coarse outcome category of a status token, derived from the
/// hundreds digit of its legacy HTTP status code.
#[derive(Clone, Copy, Debug, PartialEq, Eq, Hash, Structural)]
pub enum StatusClass {
    /// Informational responses (legacy 1xx).
    Informational,
    /// Successful responses (legacy 2xx).
    Success,
    /// Redirection responses (legacy 3xx).
    Redirect,
    /// Client-error responses (legacy 4xx).
    ClientError,
    /// Server-error responses (legacy 5xx).
    ServerError,
}

/// The canonical lowercase-with-underscores ASCII wire token of a status
/// token (`b"not_found"` for `NotFound`, and so on).
pub open spec fn spec_status_wire(t: StatusToken) -> Seq<u8> {
    match t {
        StatusToken::Continue => seq![99u8, 111u8, 110u8, 116u8, 105u8, 110u8, 117u8, 101u8],  // "continue"
        StatusToken::SwitchingProtocols => seq![115u8, 119u8, 105u8, 116u8, 99u8, 104u8, 105u8, 110u8, 103u8, 95u8, 112u8, 114u8, 111u8, 116u8, 111u8, 99u8, 111u8, 108u8, 115u8],  // "switching_protocols"
        StatusToken::Okay => seq![111u8, 107u8],  // "ok"
        StatusToken::Created => seq![99u8, 114u8, 101u8, 97u8, 116u8, 101u8, 100u8],  // "created"
        StatusToken::Accepted => seq![97u8, 99u8, 99u8, 101u8, 112u8, 116u8, 101u8, 100u8],  // "accepted"
        StatusToken::NoContent => seq![110u8, 111u8, 95u8, 99u8, 111u8, 110u8, 116u8, 101u8, 110u8, 116u8],  // "no_content"
        StatusToken::PartialContent => seq![112u8, 97u8, 114u8, 116u8, 105u8, 97u8, 108u8, 95u8, 99u8, 111u8, 110u8, 116u8, 101u8, 110u8, 116u8],  // "partial_content"
        StatusToken::MovedPermanently => seq![109u8, 111u8, 118u8, 101u8, 100u8, 95u8, 112u8, 101u8, 114u8, 109u8, 97u8, 110u8, 101u8, 110u8, 116u8, 108u8, 121u8],  // "moved_permanently"
        StatusToken::Found => seq![102u8, 111u8, 117u8, 110u8, 100u8],  // "found"
        StatusToken::SeeOther => seq![115u8, 101u8, 101u8, 95u8, 111u8, 116u8, 104u8, 101u8, 114u8],  // "see_other"
        StatusToken::NotModified => seq![110u8, 111u8, 116u8, 95u8, 109u8, 111u8, 100u8, 105u8, 102u8, 105u8, 101u8, 100u8],  // "not_modified"
        StatusToken::TemporaryRedirect => seq![116u8, 101u8, 109u8, 112u8, 111u8, 114u8, 97u8, 114u8, 121u8, 95u8, 114u8, 101u8, 100u8, 105u8, 114u8, 101u8, 99u8, 116u8],  // "temporary_redirect"
        StatusToken::PermanentRedirect => seq![112u8, 101u8, 114u8, 109u8, 97u8, 110u8, 101u8, 110u8, 116u8, 95u8, 114u8, 101u8, 100u8, 105u8, 114u8, 101u8, 99u8, 116u8],  // "permanent_redirect"
        StatusToken::BadRequest => seq![98u8, 97u8, 100u8, 95u8, 114u8, 101u8, 113u8, 117u8, 101u8, 115u8, 116u8],  // "bad_request"
        StatusToken::Unauthorized => seq![117u8, 110u8, 97u8, 117u8, 116u8, 104u8, 111u8, 114u8, 105u8, 122u8, 101u8, 100u8],  // "unauthorized"
        StatusToken::Forbidden => seq![102u8, 111u8, 114u8, 98u8, 105u8, 100u8, 100u8, 101u8, 110u8],  // "forbidden"
        StatusToken::NotFound => seq![110u8, 111u8, 116u8, 95u8, 102u8, 111u8, 117u8, 110u8, 100u8],  // "not_found"
        StatusToken::MethodNotAllowed => seq![109u8, 101u8, 116u8, 104u8, 111u8, 100u8, 95u8, 110u8, 111u8, 116u8, 95u8, 97u8, 108u8, 108u8, 111u8, 119u8, 101u8, 100u8],  // "method_not_allowed"
        StatusToken::Conflict => seq![99u8, 111u8, 110u8, 102u8, 108u8, 105u8, 99u8, 116u8],  // "conflict"
        StatusToken::Gone => seq![103u8, 111u8, 110u8, 101u8],  // "gone"
        StatusToken::PayloadTooLarge => seq![112u8, 97u8, 121u8, 108u8, 111u8, 97u8, 100u8, 95u8, 116u8, 111u8, 111u8, 95u8, 108u8, 97u8, 114u8, 103u8, 101u8],  // "payload_too_large"
        StatusToken::UnsupportedMediaType => seq![117u8, 110u8, 115u8, 117u8, 112u8, 112u8, 111u8, 114u8, 116u8, 101u8, 100u8, 95u8, 109u8, 101u8, 100u8, 105u8, 97u8, 95u8, 116u8, 121u8, 112u8, 101u8],  // "unsupported_media_type"
        StatusToken::TooManyRequests => seq![116u8, 111u8, 111u8, 95u8, 109u8, 97u8, 110u8, 121u8, 95u8, 114u8, 101u8, 113u8, 117u8, 101u8, 115u8, 116u8, 115u8],  // "too_many_requests"
        StatusToken::InternalError => seq![105u8, 110u8, 116u8, 101u8, 114u8, 110u8, 97u8, 108u8, 95u8, 101u8, 114u8, 114u8, 111u8, 114u8],  // "internal_error"
        StatusToken::NotImplemented => seq![110u8, 111u8, 116u8, 95u8, 105u8, 109u8, 112u8, 108u8, 101u8, 109u8, 101u8, 110u8, 116u8, 101u8, 100u8],  // "not_implemented"
        StatusToken::BadGateway => seq![98u8, 97u8, 100u8, 95u8, 103u8, 97u8, 116u8, 101u8, 119u8, 97u8, 121u8],  // "bad_gateway"
        StatusToken::ServiceUnavailable => seq![115u8, 101u8, 114u8, 118u8, 105u8, 99u8, 101u8, 95u8, 117u8, 110u8, 97u8, 118u8, 97u8, 105u8, 108u8, 97u8, 98u8, 108u8, 101u8],  // "service_unavailable"
        StatusToken::GatewayTimeout => seq![103u8, 97u8, 116u8, 101u8, 119u8, 97u8, 121u8, 95u8, 116u8, 105u8, 109u8, 101u8, 111u8, 117u8, 116u8],  // "gateway_timeout"
    }
}

/// The status token a wire token names. Total: a byte sequence that is
/// none of the defined wire tokens yields `InternalError`.
pub open spec fn spec_status_of_wire(s: Seq<u8>) -> StatusToken {
    if s == spec_status_wire(StatusToken::Continue) {
        StatusToken::Continue
    } else if s == spec_status_wire(StatusToken::SwitchingProtocols) {
        StatusToken::SwitchingProtocols
    } else if s == spec_status_wire(StatusToken::Okay) {
        StatusToken::Okay
    } else if s == spec_status_wire(StatusToken::Created) {
        StatusToken::Created
    } else if s == spec_status_wire(StatusToken::Accepted) {
        StatusToken::Accepted
    } else if s == spec_status_wire(StatusToken::NoContent) {
        StatusToken::NoContent
    } else if s == spec_status_wire(StatusToken::PartialContent) {
        StatusToken::PartialContent
    } else if s == spec_status_wire(StatusToken::MovedPermanently) {
        StatusToken::MovedPermanently
    } else if s == spec_status_wire(StatusToken::Found) {
        StatusToken::Found
    } else if s == spec_status_wire(StatusToken::SeeOther) {
        StatusToken::SeeOther
    } else if s == spec_status_wire(StatusToken::NotModified) {
        StatusToken::NotModified
    } else if s == spec_status_wire(StatusToken::TemporaryRedirect) {
        StatusToken::TemporaryRedirect
    } else if s == spec_status_wire(StatusToken::PermanentRedirect) {
        StatusToken::PermanentRedirect
    } else if s == spec_status_wire(StatusToken::BadRequest) {
        StatusToken::BadRequest
    } else if s == spec_status_wire(StatusToken::Unauthorized) {
        StatusToken::Unauthorized
    } else if s == spec_status_wire(StatusToken::Forbidden) {
        StatusToken::Forbidden
    } else if s == spec_status_wire(StatusToken::NotFound) {
        StatusToken::NotFound
    } else if s == spec_status_wire(StatusToken::MethodNotAllowed) {
        StatusToken::MethodNotAllowed
    } else if s == spec_status_wire(StatusToken::Conflict) {
        StatusToken::Conflict
    } else if s == spec_status_wire(StatusToken::Gone) {
        StatusToken::Gone
    } else if s == spec_status_wire(StatusToken::PayloadTooLarge) {
        StatusToken::PayloadTooLarge
    } else if s == spec_status_wire(StatusToken::UnsupportedMediaType) {
        StatusToken::UnsupportedMediaType
    } else if s == spec_status_wire(StatusToken::TooManyRequests) {
        StatusToken::TooManyRequests
    } else if s == spec_status_wire(StatusToken::InternalError) {
        StatusToken::InternalError
    } else if s == spec_status_wire(StatusToken::NotImplemented) {
        StatusToken::NotImplemented
    } else if s == spec_status_wire(StatusToken::BadGateway) {
        StatusToken::BadGateway
    } else if s == spec_status_wire(StatusToken::ServiceUnavailable) {
        StatusToken::ServiceUnavailable
    } else if s == spec_status_wire(StatusToken::GatewayTimeout) {
        StatusToken::GatewayTimeout
    } else {
        StatusToken::InternalError
    }
}

/// The legacy HTTP status code of a status token.
pub open spec fn spec_status_code(t: StatusToken) -> u16 {
    match t {
        StatusToken::Continue => 100,
        StatusToken::SwitchingProtocols => 101,
        StatusToken::Okay => 200,
        StatusToken::Created => 201,
        StatusToken::Accepted => 202,
        StatusToken::NoContent => 204,
        StatusToken::PartialContent => 206,
        StatusToken::MovedPermanently => 301,
        StatusToken::Found => 302,
        StatusToken::SeeOther => 303,
        StatusToken::NotModified => 304,
        StatusToken::TemporaryRedirect => 307,
        StatusToken::PermanentRedirect => 308,
        StatusToken::BadRequest => 400,
        StatusToken::Unauthorized => 401,
        StatusToken::Forbidden => 403,
        StatusToken::NotFound => 404,
        StatusToken::MethodNotAllowed => 405,
        StatusToken::Conflict => 409,
        StatusToken::Gone => 410,
        StatusToken::PayloadTooLarge => 413,
        StatusToken::UnsupportedMediaType => 415,
        StatusToken::TooManyRequests => 429,
        StatusToken::InternalError => 500,
        StatusToken::NotImplemented => 501,
        StatusToken::BadGateway => 502,
        StatusToken::ServiceUnavailable => 503,
        StatusToken::GatewayTimeout => 504,
    }
}

/// The status token a legacy HTTP status code maps to, if any: the exact
/// inverse of `spec_status_code`.
pub open spec fn spec_status_of_code(code: u16) -> Option<StatusToken> {
    if code == 100 {
        Some(StatusToken::Continue)
    } else if code == 101 {
        Some(StatusToken::SwitchingProtocols)
    } else if code == 200 {
        Some(StatusToken::Okay)
    } else if code == 201 {
        Some(StatusToken::Created)
    } else if code == 202 {
        Some(StatusToken::Accepted)
    } else if code == 204 {
        Some(StatusToken::NoContent)
    } else if code == 206 {
        Some(StatusToken::PartialContent)
    } else if code == 301 {
        Some(StatusToken::MovedPermanently)
    } else if code == 302 {
        Some(StatusToken::Found)
    } else if code == 303 {
        Some(StatusToken::SeeOther)
    } else if code == 304 {
        Some(StatusToken::NotModified)
    } else if code == 307 {
        Some(StatusToken::TemporaryRedirect)
    } else if code == 308 {
        Some(StatusToken::PermanentRedirect)
    } else if code == 400 {
        Some(StatusToken::BadRequest)
    } else if code == 401 {
        Some(StatusToken::Unauthorized)
    } else if code == 403 {
        Some(StatusToken::Forbidden)
    } else if code == 404 {
        Some(StatusToken::NotFound)
    } else if code == 405 {
        Some(StatusToken::MethodNotAllowed)
    } else if code == 409 {
        Some(StatusToken::Conflict)
    } else if code == 410 {
        Some(StatusToken::Gone)
    } else if code == 413 {
        Some(StatusToken::PayloadTooLarge)
    } else if code == 415 {
        Some(StatusToken::UnsupportedMediaType)
    } else if code == 429 {
        Some(StatusToken::TooManyRequests)
    } else if code == 500 {
        Some(StatusToken::InternalError)
    } else if code == 501 {
        Some(StatusToken::NotImplemented)
    } else if code == 502 {
        Some(StatusToken::BadGateway)
    } else if code == 503 {
        Some(StatusToken::ServiceUnavailable)
    } else if code == 504 {
        Some(StatusToken::GatewayTimeout)
    } else {
        None
    }
}

/// The status class of a legacy HTTP status code: its hundreds digit,
/// with anything outside the five defined ranges falling to `ServerError`.
pub open spec fn spec_class_of_code(code: u16) -> StatusClass {
    let hundreds = code / 100;
    if hundreds == 1 {
        StatusClass::Informational
    } else if hundreds == 2 {
        StatusClass::Success
    } else if hundreds == 3 {
        StatusClass::Redirect
    } else if hundreds == 4 {
        StatusClass::ClientError
    } else {
        StatusClass::ServerError
    }
}

/// The status class of a status token, derived from its legacy code.
pub open spec fn spec_status_class(t: StatusToken) -> StatusClass {
    spec_class_of_code(spec_status_code(t))
}

/// The name of a status class.
pub open spec fn spec_class_name(c: StatusClass) -> Seq<char> {
    match c {
        StatusClass::Informational => "informational"@,
        StatusClass::Success => "success"@,
        StatusClass::Redirect => "redirect"@,
        StatusClass::ClientError => "client_error"@,
        StatusClass::ServerError => "server_error"@,
    }
}

impl StatusToken {
    /// Parse a status token from its wire token.
    ///
    /// Never fails: an unrecognized wire token yields `InternalError`,
    /// the lenient default, so that response processing is not aborted
    /// by vocabulary the peer may have added.
    pub fn from_bytes(token: &[u8]) -> (r: StatusToken)
        ensures
            r == spec_status_of_wire(token@),
    {
        if bytes_eq(token, StatusToken::Continue.as_bytes().as_slice()) {
            StatusToken::Continue
        } else if bytes_eq(token, StatusToken::SwitchingProtocols.as_bytes().as_slice()) {
            StatusToken::SwitchingProtocols
        } else if bytes_eq(token, StatusToken::Okay.as_bytes().as_slice()) {
            StatusToken::Okay
        } else if bytes_eq(token, StatusToken::Created.as_bytes().as_slice()) {
            StatusToken::Created
        } else if bytes_eq(token, StatusToken::Accepted.as_bytes().as_slice()) {
            StatusToken::Accepted
        } else if bytes_eq(token, StatusToken::NoContent.as_bytes().as_slice()) {
            StatusToken::NoContent
        } else if bytes_eq(token, StatusToken::PartialContent.as_bytes().as_slice()) {
            StatusToken::PartialContent
        } else if bytes_eq(token, StatusToken::MovedPermanently.as_bytes().as_slice()) {
            StatusToken::MovedPermanently
        } else if bytes_eq(token, StatusToken::Found.as_bytes().as_slice()) {
            StatusToken::Found
        } else if bytes_eq(token, StatusToken::SeeOther.as_bytes().as_slice()) {
            StatusToken::SeeOther
        } else if bytes_eq(token, StatusToken::NotModified.as_bytes().as_slice()) {
            StatusToken::NotModified
        } else if bytes_eq(token, StatusToken::TemporaryRedirect.as_bytes().as_slice()) {
            StatusToken::TemporaryRedirect
        } else if bytes_eq(token, StatusToken::PermanentRedirect.as_bytes().as_slice()) {
            StatusToken::PermanentRedirect
        } else if bytes_eq(token, StatusToken::BadRequest.as_bytes().as_slice()) {
            StatusToken::BadRequest
        } else if bytes_eq(token, StatusToken::Unauthorized.as_bytes().as_slice()) {
            StatusToken::Unauthorized
        } else if bytes_eq(token, StatusToken::Forbidden.as_bytes().as_slice()) {
            StatusToken::Forbidden
        } else if bytes_eq(token, StatusToken::NotFound.as_bytes().as_slice()) {
            StatusToken::NotFound
        } else if bytes_eq(token, StatusToken::MethodNotAllowed.as_bytes().as_slice()) {
            StatusToken::MethodNotAllowed
        } else if bytes_eq(token, StatusToken::Conflict.as_bytes().as_slice()) {
            StatusToken::Conflict
        } else if bytes_eq(token, StatusToken::Gone.as_bytes().as_slice()) {
            StatusToken::Gone
        } else if bytes_eq(token, StatusToken::PayloadTooLarge.as_bytes().as_slice()) {
            StatusToken::PayloadTooLarge
        } else if bytes_eq(token, StatusToken::UnsupportedMediaType.as_bytes().as_slice()) {
            StatusToken::UnsupportedMediaType
        } else if bytes_eq(token, StatusToken::TooManyRequests.as_bytes().as_slice()) {
            StatusToken::TooManyRequests
        } else if bytes_eq(token, StatusToken::InternalError.as_bytes().as_slice()) {
            StatusToken::InternalError
        } else if bytes_eq(token, StatusToken::NotImplemented.as_bytes().as_slice()) {
            StatusToken::NotImplemented
        } else if bytes_eq(token, StatusToken::BadGateway.as_bytes().as_slice()) {
            StatusToken::BadGateway
        } else if bytes_eq(token, StatusToken::ServiceUnavailable.as_bytes().as_slice()) {
            StatusToken::ServiceUnavailable
        } else if bytes_eq(token, StatusToken::GatewayTimeout.as_bytes().as_slice()) {
            StatusToken::GatewayTimeout
        } else {
            StatusToken::InternalError
        }
    }

    /// The canonical ASCII wire token of this status token.
    pub fn as_bytes(&self) -> (r: Vec<u8>)
        ensures
            r@ == spec_status_wire(*self),
    {
        let r: Vec<u8> = match self {
            StatusToken::Continue => vec![99u8, 111u8, 110u8, 116u8, 105u8, 110u8, 117u8, 101u8],
            StatusToken::SwitchingProtocols => vec![115u8, 119u8, 105u8, 116u8, 99u8, 104u8, 105u8, 110u8, 103u8, 95u8, 112u8, 114u8, 111u8, 116u8, 111u8, 99u8, 111u8, 108u8, 115u8],
            StatusToken::Okay => vec![111u8, 107u8],
            StatusToken::Created => vec![99u8, 114u8, 101u8, 97u8, 116u8, 101u8, 100u8],
            StatusToken::Accepted => vec![97u8, 99u8, 99u8, 101u8, 112u8, 116u8, 101u8, 100u8],
            StatusToken::NoContent => vec![110u8, 111u8, 95u8, 99u8, 111u8, 110u8, 116u8, 101u8, 110u8, 116u8],
            StatusToken::PartialContent => vec![112u8, 97u8, 114u8, 116u8, 105u8, 97u8, 108u8, 95u8, 99u8, 111u8, 110u8, 116u8, 101u8, 110u8, 116u8],
            StatusToken::MovedPermanently => vec![109u8, 111u8, 118u8, 101u8, 100u8, 95u8, 112u8, 101u8, 114u8, 109u8, 97u8, 110u8, 101u8, 110u8, 116u8, 108u8, 121u8],
            StatusToken::Found => vec![102u8, 111u8, 117u8, 110u8, 100u8],
            StatusToken::SeeOther => vec![115u8, 101u8, 101u8, 95u8, 111u8, 116u8, 104u8, 101u8, 114u8],
            StatusToken::NotModified => vec![110u8, 111u8, 116u8, 95u8, 109u8, 111u8, 100u8, 105u8, 102u8, 105u8, 101u8, 100u8],
            StatusToken::TemporaryRedirect => vec![116u8, 101u8, 109u8, 112u8, 111u8, 114u8, 97u8, 114u8, 121u8, 95u8, 114u8, 101u8, 100u8, 105u8, 114u8, 101u8, 99u8, 116u8],
            StatusToken::PermanentRedirect => vec![112u8, 101u8, 114u8, 109u8, 97u8, 110u8, 101u8, 110u8, 116u8, 95u8, 114u8, 101u8, 100u8, 105u8, 114u8, 101u8, 99u8, 116u8],
            StatusToken::BadRequest => vec![98u8, 97u8, 100u8, 95u8, 114u8, 101u8, 113u8, 117u8, 101u8, 115u8, 116u8],
            StatusToken::Unauthorized => vec![117u8, 110u8, 97u8, 117u8, 116u8, 104u8, 111u8, 114u8, 105u8, 122u8, 101u8, 100u8],
            StatusToken::Forbidden => vec![102u8, 111u8, 114u8, 98u8, 105u8, 100u8, 100u8, 101u8, 110u8],
            StatusToken::NotFound => vec![110u8, 111u8, 116u8, 95u8, 102u8, 111u8, 117u8, 110u8, 100u8],
            StatusToken::MethodNotAllowed => vec![109u8, 101u8, 116u8, 104u8, 111u8, 100u8, 95u8, 110u8, 111u8, 116u8, 95u8, 97u8, 108u8, 108u8, 111u8, 119u8, 101u8, 100u8],
            StatusToken::Conflict => vec![99u8, 111u8, 110u8, 102u8, 108u8, 105u8, 99u8, 116u8],
            StatusToken::Gone => vec![103u8, 111u8, 110u8, 101u8],
            StatusToken::PayloadTooLarge => vec![112u8, 97u8, 121u8, 108u8, 111u8, 97u8, 100u8, 95u8, 116u8, 111u8, 111u8, 95u8, 108u8, 97u8, 114u8, 103u8, 101u8],
            StatusToken::UnsupportedMediaType => vec![117u8, 110u8, 115u8, 117u8, 112u8, 112u8, 111u8, 114u8, 116u8, 101u8, 100u8, 95u8, 109u8, 101u8, 100u8, 105u8, 97u8, 95u8, 116u8, 121u8, 112u8, 101u8],
            StatusToken::TooManyRequests => vec![116u8, 111u8, 111u8, 95u8, 109u8, 97u8, 110u8, 121u8, 95u8, 114u8, 101u8, 113u8, 117u8, 101u8, 115u8, 116u8, 115u8],
            StatusToken::InternalError => vec![105u8, 110u8, 116u8, 101u8, 114u8, 110u8, 97u8, 108u8, 95u8, 101u8, 114u8, 114u8, 111u8, 114u8],
            StatusToken::NotImplemented => vec![110u8, 111u8, 116u8, 95u8, 105u8, 109u8, 112u8, 108u8, 101u8, 109u8, 101u8, 110u8, 116u8, 101u8, 100u8],
            StatusToken::BadGateway => vec![98u8, 97u8, 100u8, 95u8, 103u8, 97u8, 116u8, 101u8, 119u8, 97u8, 121u8],
            StatusToken::ServiceUnavailable => vec![115u8, 101u8, 114u8, 118u8, 105u8, 99u8, 101u8, 95u8, 117u8, 110u8, 97u8, 118u8, 97u8, 105u8, 108u8, 97u8, 98u8, 108u8, 101u8],
            StatusToken::GatewayTimeout => vec![103u8, 97u8, 116u8, 101u8, 119u8, 97u8, 121u8, 95u8, 116u8, 105u8, 109u8, 101u8, 111u8, 117u8, 116u8],
        };
        proof {
            assert(r@ =~= spec_status_wire(*self));
        }
        r
    }

    /// The legacy HTTP status code of this status token, for gateway
    /// compatibility.
    pub fn to_http_code(&self) -> (r: u16)
        ensures
            r == spec_status_code(*self),
    {
        match self {
            StatusToken::Continue => 100,
            StatusToken::SwitchingProtocols => 101,
            StatusToken::Okay => 200,
            StatusToken::Created => 201,
            StatusToken::Accepted => 202,
            StatusToken::NoContent => 204,
            StatusToken::PartialContent => 206,
            StatusToken::MovedPermanently => 301,
            StatusToken::Found => 302,
            StatusToken::SeeOther => 303,
            StatusToken::NotModified => 304,
            StatusToken::TemporaryRedirect => 307,
            StatusToken::PermanentRedirect => 308,
            StatusToken::BadRequest => 400,
            StatusToken::Unauthorized => 401,
            StatusToken::Forbidden => 403,
            StatusToken::NotFound => 404,
            StatusToken::MethodNotAllowed => 405,
            StatusToken::Conflict => 409,
            StatusToken::Gone => 410,
            StatusToken::PayloadTooLarge => 413,
            StatusToken::UnsupportedMediaType => 415,
            StatusToken::TooManyRequests => 429,
            StatusToken::InternalError => 500,
            StatusToken::NotImplemented => 501,
            StatusToken::BadGateway => 502,
            StatusToken::ServiceUnavailable => 503,
            StatusToken::GatewayTimeout => 504,
        }
    }

    /// Map a legacy HTTP status code to its status token, for gateway
    /// compatibility. Yields `None` exactly on codes that are not the
    /// legacy code of any defined token.
    pub fn from_http_code(code: u16) -> (r: Option<StatusToken>)
        ensures
            r == spec_status_of_code(code),
    {
        if code == 100 {
            Some(StatusToken::Continue)
        } else if code == 101 {
            Some(StatusToken::SwitchingProtocols)
        } else if code == 200 {
            Some(StatusToken::Okay)
        } else if code == 201 {
            Some(StatusToken::Created)
        } else if code == 202 {
            Some(StatusToken::Accepted)
        } else if code == 204 {
            Some(StatusToken::NoContent)
        } else if code == 206 {
            Some(StatusToken::PartialContent)
        } else if code == 301 {
            Some(StatusToken::MovedPermanently)
        } else if code == 302 {
            Some(StatusToken::Found)
        } else if code == 303 {
            Some(StatusToken::SeeOther)
        } else if code == 304 {
            Some(StatusToken::NotModified)
        } else if code == 307 {
            Some(StatusToken::TemporaryRedirect)
        } else if code == 308 {
            Some(StatusToken::PermanentRedirect)
        } else if code == 400 {
            Some(StatusToken::BadRequest)
        } else if code == 401 {
            Some(StatusToken::Unauthorized)
        } else if code == 403 {
            Some(StatusToken::Forbidden)
        } else if code == 404 {
            Some(StatusToken::NotFound)
        } else if code == 405 {
            Some(StatusToken::MethodNotAllowed)
        } else if code == 409 {
            Some(StatusToken::Conflict)
        } else if code == 410 {
            Some(StatusToken::Gone)
        } else if code == 413 {
            Some(StatusToken::PayloadTooLarge)
        } else if code == 415 {
            Some(StatusToken::UnsupportedMediaType)
        } else if code == 429 {
            Some(StatusToken::TooManyRequests)
        } else if code == 500 {
            Some(StatusToken::InternalError)
        } else if code == 501 {
            Some(StatusToken::NotImplemented)
        } else if code == 502 {
            Some(StatusToken::BadGateway)
        } else if code == 503 {
            Some(StatusToken::ServiceUnavailable)
        } else if code == 504 {
            Some(StatusToken::GatewayTimeout)
        } else {
            None
        }
    }

    /// The status class of this status token, computed from the hundreds
    /// digit of its legacy code.
    pub fn class(&self) -> (r: StatusClass)
        ensures
            r == spec_status_class(*self),
    {
        let code = self.to_http_code();
        let hundreds = code / 100;
        if hundreds == 1 {
            StatusClass::Informational
        } else if hundreds == 2 {
            StatusClass::Success
        } else if hundreds == 3 {
            StatusClass::Redirect
        } else if hundreds == 4 {
            StatusClass::ClientError
        } else {
            StatusClass::ServerError
        }
    }
}

impl StatusClass {
    /// The name of this status class, as used in a status-class header.
    pub fn as_str(&self) -> (r: &'static str)
        ensures
            r@ == spec_class_name(*self),
    {
        match self {
            StatusClass::Informational => "informational",
            StatusClass::Success => "success",
            StatusClass::Redirect => "redirect",
            StatusClass::ClientError => "client_error",
            StatusClass::ServerError => "server_error",
        }
    }
}

/// Every status token round-trips losslessly through its wire token;
/// in particular the lenient default of `spec_status_of_wire` never
/// shadows a defined token.
pub proof fn lemma_status_wire_round_trip(t: StatusToken)
    ensures
        spec_status_of_wire(spec_status_wire(t)) == t,
{
    match t {
        StatusToken::Continue => {},
        StatusToken::SwitchingProtocols => {},
        StatusToken::Okay => {},
        StatusToken::Created => {},
        StatusToken::Accepted => {
            assert(spec_status_wire(StatusToken::Continue)[0] != spec_status_wire(StatusToken::Accepted)[0]);
        },
        StatusToken::NoContent => {},
        StatusToken::PartialContent => {},
        StatusToken::MovedPermanently => {},
        StatusToken::Found => {},
        StatusToken::SeeOther => {},
        StatusToken::NotModified => {},
        StatusToken::TemporaryRedirect => {},
        StatusToken::PermanentRedirect => {
            assert(spec_status_wire(StatusToken::TemporaryRedirect)[0] != spec_status_wire(StatusToken::PermanentRedirect)[0]);
        },
        StatusToken::BadRequest => {},
        StatusToken::Unauthorized => {
            assert(spec_status_wire(StatusToken::NotModified)[0] != spec_status_wire(StatusToken::Unauthorized)[0]);
        },
        StatusToken::Forbidden => {
            assert(spec_status_wire(StatusToken::SeeOther)[0] != spec_status_wire(StatusToken::Forbidden)[0]);
        },
        StatusToken::NotFound => {
            assert(spec_status_wire(StatusToken::SeeOther)[0] != spec_status_wire(StatusToken::NotFound)[0]);
            assert(spec_status_wire(StatusToken::Forbidden)[0] != spec_status_wire(StatusToken::NotFound)[0]);
        },
        StatusToken::MethodNotAllowed => {
            assert(spec_status_wire(StatusToken::TemporaryRedirect)[0] != spec_status_wire(StatusToken::MethodNotAllowed)[0]);
            assert(spec_status_wire(StatusToken::PermanentRedirect)[0] != spec_status_wire(StatusToken::MethodNotAllowed)[0]);
        },
        StatusToken::Conflict => {
            assert(spec_status_wire(StatusToken::Continue)[3] != spec_status_wire(StatusToken::Conflict)[3]);
            assert(spec_status_wire(StatusToken::Accepted)[0] != spec_status_wire(StatusToken::Conflict)[0]);
        },
        StatusToken::Gone => {},
        StatusToken::PayloadTooLarge => {
            assert(spec_status_wire(StatusToken::MovedPermanently)[0] != spec_status_wire(StatusToken::PayloadTooLarge)[0]);
        },
        StatusToken::UnsupportedMediaType => {},
        StatusToken::TooManyRequests => {
            assert(spec_status_wire(StatusToken::MovedPermanently)[0] != spec_status_wire(StatusToken::TooManyRequests)[0]);
            assert(spec_status_wire(StatusToken::PayloadTooLarge)[0] != spec_status_wire(StatusToken::TooManyRequests)[0]);
        },
        StatusToken::InternalError => {},
        StatusToken::NotImplemented => {
            assert(spec_status_wire(StatusToken::PartialContent)[0] != spec_status_wire(StatusToken::NotImplemented)[0]);
        },
        StatusToken::BadGateway => {
            assert(spec_status_wire(StatusToken::BadRequest)[4] != spec_status_wire(StatusToken::BadGateway)[4]);
        },
        StatusToken::ServiceUnavailable => {
            assert(spec_status_wire(StatusToken::SwitchingProtocols)[1] != spec_status_wire(StatusToken::ServiceUnavailable)[1]);
        },
        StatusToken::GatewayTimeout => {
            assert(spec_status_wire(StatusToken::PartialContent)[0] != spec_status_wire(StatusToken::GatewayTimeout)[0]);
            assert(spec_status_wire(StatusToken::NotImplemented)[0] != spec_status_wire(StatusToken::GatewayTimeout)[0]);
        },
    }
}

/// Every status token round-trips losslessly through its legacy HTTP
/// status code.
pub proof fn lemma_status_code_round_trip(t: StatusToken)
    ensures
        spec_status_of_code(spec_status_code(t)) == Some(t),
{
}

/// A wire token that names no defined status token parses to the lenient
/// default `InternalError`; no error is ever raised.
pub proof fn lemma_status_wire_lenient_default(s: Seq<u8>)
    requires
        forall|t: StatusToken| s != #[trigger] spec_status_wire(t),
    ensures
        spec_status_of_wire(s) == StatusToken::InternalError,
{
}

/// Each status token falls in the status class of its declaration group:
/// the class derived from the legacy code agrees with the grouping of the
/// variants into informational, success, redirect, client-error and
/// server-error ranges.
pub proof fn lemma_status_class_grouping(t: StatusToken)
    ensures
        spec_status_class(t) == (match t {
            StatusToken::Continue | StatusToken::SwitchingProtocols => StatusClass::Informational,
            StatusToken::Okay | StatusToken::Created | StatusToken::Accepted
                | StatusToken::NoContent | StatusToken::PartialContent => StatusClass::Success,
            StatusToken::MovedPermanently | StatusToken::Found | StatusToken::SeeOther
                | StatusToken::NotModified | StatusToken::TemporaryRedirect
                | StatusToken::PermanentRedirect => StatusClass::Redirect,
            StatusToken::BadRequest | StatusToken::Unauthorized | StatusToken::Forbidden
                | StatusToken::NotFound | StatusToken::MethodNotAllowed | StatusToken::Conflict
                | StatusToken::Gone | StatusToken::PayloadTooLarge
                | StatusToken::UnsupportedMediaType | StatusToken::TooManyRequests => StatusClass::ClientError,
            StatusToken::InternalError | StatusToken::NotImplemented | StatusToken::BadGateway
                | StatusToken::ServiceUnavailable | StatusToken::GatewayTimeout => StatusClass::ServerError,
        }),
{
}

} // verus!
