//! The error mapper: converts an internal failure classification into the
//! uniform client-facing error envelope with its numeric status code.

use vstd::prelude::*;

verus! {

/// The closed set of failure classifications the gateway can surface.
#[derive(Clone, Copy, PartialEq, Eq, Structural, Debug)]
pub enum ErrorKind {
    /// A protected route was called without an `Authorization` header.
    MissingAuth,
    /// The `Authorization` header does not carry a `Bearer ` scheme.
    MalformedAuthHeader,
    /// The bearer token failed signature or expiry verification.
    InvalidOrExpiredToken,
    /// A validated request body failed its field rules.
    ValidationFailed,
    /// No route is registered for the inbound method and path.
    RouteNotFound,
    /// The forwarder was asked to proxy an unsupported HTTP method.
    MethodNotSupported,
    /// The outbound call failed at the transport level.
    BackendUnreachable,
    /// A value could not be serialized or parsed inside the gateway.
    InternalSerializationFault,
}

/// The numeric status code that each failure classification maps to.
pub open spec fn status_of(kind: ErrorKind) -> u16 {
    match kind {
        ErrorKind::MissingAuth => 401,
        ErrorKind::MalformedAuthHeader => 400,
        ErrorKind::InvalidOrExpiredToken => 401,
        ErrorKind::ValidationFailed => 400,
        ErrorKind::RouteNotFound => 404,
        ErrorKind::MethodNotSupported => 405,
        ErrorKind::BackendUnreachable => 503,
        ErrorKind::InternalSerializationFault => 500,
    }
}

/// The fixed category label that each failure classification maps to.
pub open spec fn label_of(kind: ErrorKind) -> Seq<char> {
    match kind {
        ErrorKind::MissingAuth => "Unauthorized"@,
        ErrorKind::MalformedAuthHeader => "Bad Request"@,
        ErrorKind::InvalidOrExpiredToken => "Unauthorized"@,
        ErrorKind::ValidationFailed => "Bad Request"@,
        ErrorKind::RouteNotFound => "Not Found"@,
        ErrorKind::MethodNotSupported => "Method Not Allowed"@,
        ErrorKind::BackendUnreachable => "Service Unavailable"@,
        ErrorKind::InternalSerializationFault => "Internal Server Error"@,
    }
}

/// The uniform error envelope returned to clients: a category label, a
/// human-readable message, and the numeric status code.
pub struct ApiError {
    pub error: String,
    pub message: String,
    pub status_code: u16,
}

impl ApiError {
    /// A 401 envelope with the fixed "Unauthorized" category label.
    pub fn unauthorized(message: &str) -> (r: ApiError)
        ensures
            r.error@ == "Unauthorized"@,
            r.message@ == message@,
            r.status_code == 401,
    {
        ApiError { error: "Unauthorized".to_owned(), message: message.to_owned(), status_code: 401 }
    }

    /// A 400 envelope with the fixed "Bad Request" category label.
    pub fn bad_request(message: &str) -> (r: ApiError)
        ensures
            r.error@ == "Bad Request"@,
            r.message@ == message@,
            r.status_code == 400,
    {
        ApiError { error: "Bad Request".to_owned(), message: message.to_owned(), status_code: 400 }
    }

    /// A 404 envelope with the fixed "Not Found" category label.
    pub fn not_found(message: &str) -> (r: ApiError)
        ensures
            r.error@ == "Not Found"@,
            r.message@ == message@,
            r.status_code == 404,
    {
        ApiError { error: "Not Found".to_owned(), message: message.to_owned(), status_code: 404 }
    }

    /// A 500 envelope with the fixed "Internal Server Error" category label.
    pub fn internal_error(message: &str) -> (r: ApiError)
        ensures
            r.error@ == "Internal Server Error"@,
            r.message@ == message@,
            r.status_code == 500,
    {
        ApiError {
            error: "Internal Server Error".to_owned(),
            message: message.to_owned(),
            status_code: 500,
        }
    }

    /// A 503 envelope with the fixed "Service Unavailable" category label.
    pub fn service_unavailable(message: &str) -> (r: ApiError)
        ensures
            r.error@ == "Service Unavailable"@,
            r.message@ == message@,
            r.status_code == 503,
    {
        ApiError {
            error: "Service Unavailable".to_owned(),
            message: message.to_owned(),
            status_code: 503,
        }
    }

    /// A 405 envelope with the fixed "Method Not Allowed" category label.
    pub fn method_not_allowed(message: &str) -> (r: ApiError)
        ensures
            r.error@ == "Method Not Allowed"@,
            r.message@ == message@,
            r.status_code == 405,
    {
        ApiError {
            error: "Method Not Allowed".to_owned(),
            message: message.to_owned(),
            status_code: 405,
        }
    }
}

/// Maps a failure classification to its wire envelope.  Every surfaced
/// failure goes through this single table: the label and status code are
/// fixed functions of the classification, and the message is carried
/// through unchanged.
pub fn to_envelope(kind: ErrorKind, message: &str) -> (r: ApiError)
    ensures
        r.error@ == label_of(kind),
        r.message@ == message@,
        r.status_code == status_of(kind),
{
    match kind {
        ErrorKind::MissingAuth => ApiError::unauthorized(message),
        ErrorKind::MalformedAuthHeader => ApiError::bad_request(message),
        ErrorKind::InvalidOrExpiredToken => ApiError::unauthorized(message),
        ErrorKind::ValidationFailed => ApiError::bad_request(message),
        ErrorKind::RouteNotFound => ApiError::not_found(message),
        ErrorKind::MethodNotSupported => ApiError::method_not_allowed(message),
        ErrorKind::BackendUnreachable => ApiError::service_unavailable(message),
        ErrorKind::InternalSerializationFault => ApiError::internal_error(message),
    }
}

} // verus!
