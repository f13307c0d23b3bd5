//! The dispatcher: sequences the router, the auth gate and the validator
//! over an inbound request and decides whether to forward it or to reject
//! it with an envelope, and turns the forwarder's result into the final
//! client-facing response.
//!
//! Rejections short-circuit: an unrouted request never reaches the auth
//! gate, and a rejected or invalid request never reaches the forwarder.

use vstd::prelude::*;

use crate::auth::{
    rejection_kind, rejection_message, validate_token_spec, AuthMiddleware, AuthRejection,
    header_view,
};
use crate::error::{label_of, status_of, to_envelope, ApiError, ErrorKind};
use crate::proxy::ProxyResult;
use crate::routing::{resolve_route, route_spec, Backend, HttpMethod, RouteTargetView};
use crate::validation::{validate_input, AuthRequest, Validate};

verus! {

/// What the dispatcher decides for an inbound request: reject it with an
/// envelope, or forward it to a backend.
pub enum Decision {
    Reject(ApiError),
    Forward(ForwardDirective),
}

/// Where and how a cleared request is forwarded: the backend, the target
/// path on it (a `/` followed by the route's trailing segment), the
/// unchanged method, and the inbound JSON body if one was supplied.
pub struct ForwardDirective {
    pub backend: Backend,
    pub path: String,
    pub method: HttpMethod,
    pub body: Option<serde_json::Value>,
}

/// The final client-facing answer: the backend's relayed response, or an
/// error envelope.
pub enum GatewayResponse {
    Upstream { status_code: u16, body: Option<serde_json::Value> },
    Error(ApiError),
}

/// How far a request gets before the validator runs: no route, stopped at
/// the auth gate, or cleared through to its route target.
pub enum GateOutcome {
    NotFound,
    AuthRejected(AuthRejection),
    Cleared(RouteTargetView),
}

/// The router and auth gate in sequence: an unrouted request is refused
/// before any token is inspected, a protected route must clear the auth
/// gate, and an open route passes straight through.
pub open spec fn gate_spec(
    method: HttpMethod,
    path: Seq<char>,
    header: Option<Seq<char>>,
    secret: Seq<char>,
    now: usize,
) -> GateOutcome {
    match route_spec(method, path) {
        None => GateOutcome::NotFound,
        Some(t) => if t.auth_required {
            match validate_token_spec(header, secret, now) {
                Ok(_) => GateOutcome::Cleared(t),
                Err(rej) => GateOutcome::AuthRejected(rej),
            }
        } else {
            GateOutcome::Cleared(t)
        },
    }
}

/// `r` forwards to the target `t`: right backend, method unchanged, the
/// target path is `/` followed by the route's trailing segment, and the
/// inbound body travels along untouched.
pub open spec fn forwards_to(
    r: Decision,
    t: RouteTargetView,
    method: HttpMethod,
    body: Option<serde_json::Value>,
) -> bool {
    r matches Decision::Forward(d) && d.backend == t.backend && d.method == method && d.path@
        == "/"@ + t.endpoint && d.body == body
}

/// `r` rejects a validated route's payload: a 400 envelope for a body
/// that could not be read as the expected shape or that failed the field
/// rules.
pub open spec fn rejects_bad_payload(r: Decision) -> bool {
    r matches Decision::Reject(e) && e.status_code == 400 && e.error@ == "Bad Request"@ && (
    e.message@ == "Invalid request format"@ || e.message@ == "Validation failed"@)
}

/// The envelope for an auth-gate rejection: the classification's fixed
/// label and status, and the fixed message for that rejection.
pub fn rejection_envelope(rej: AuthRejection) -> (r: ApiError)
    ensures
        r.error@ == label_of(rejection_kind(rej)),
        r.message@ == rejection_message(rej),
        r.status_code == status_of(rejection_kind(rej)),
{
    match rej {
        AuthRejection::MissingHeader => to_envelope(
            ErrorKind::MissingAuth,
            "Authorization header missing",
        ),
        AuthRejection::MalformedHeader => to_envelope(
            ErrorKind::MalformedAuthHeader,
            "Invalid authorization header format",
        ),
        AuthRejection::InvalidOrExpiredToken => to_envelope(
            ErrorKind::InvalidOrExpiredToken,
            "Invalid or expired token",
        ),
    }
}

/// Relies on `serde_json::Value::get` and `Value::as_str`: reads the
/// `username` and `password` fields out of a JSON body, exactly as
/// deserializing the login/registration payload would; `None` when the
/// body is absent, either field is missing, or either field is not a
/// string.
#[verifier::external_body]
fn parse_auth_request(v: Option<&serde_json::Value>) -> Option<AuthRequest> {
    let v = v?;
    let username = v.get("username")?.as_str()?;
    let password = v.get("password")?.as_str()?;
    Some(AuthRequest { username: username.to_string(), password: password.to_string() })
}

/// Screens a validated route's parsed payload: a body that could not be
/// read as the expected shape is refused as an invalid format, one that
/// breaks the field rules is refused as failed validation, and a valid
/// payload passes.
pub fn screen_auth_payload(parsed: Option<AuthRequest>) -> (r: Result<(), ApiError>)
    ensures
        parsed is None ==> (r matches Err(e) && e.status_code == 400 && e.error@ == "Bad Request"@
            && e.message@ == "Invalid request format"@),
        (parsed matches Some(a) ==> (if a.valid() {
            r is Ok
        } else {
            r matches Err(e) && e.status_code == 400 && e.error@ == "Bad Request"@ && e.message@
                == "Validation failed"@
        })),
{
    match parsed {
        None => Err(ApiError::bad_request("Invalid request format")),
        Some(a) => match validate_input(&a) {
            Ok(_) => Ok(()),
            Err(_) => Err(ApiError::bad_request("Validation failed")),
        },
    }
}

/// The request-dispatch pipeline: resolve the route, clear the auth gate
/// where the route demands it, screen the body where the route validates
/// it, and otherwise hand the request to the forwarder unchanged.
pub fn dispatch(
    method: HttpMethod,
    path: &str,
    auth_header: Option<&String>,
    body: Option<serde_json::Value>,
    secret: &str,
    now: usize,
) -> (r: Decision)
    ensures
        (gate_spec(method, path@, header_view(auth_header), secret@, now) is NotFound ==> (r
            matches Decision::Reject(e) && e.status_code == 404 && e.error@ == "Not Found"@
            && e.message@ == "Route not found"@)),
        (gate_spec(method, path@, header_view(auth_header), secret@, now) matches
            GateOutcome::AuthRejected(rej) ==> (r matches Decision::Reject(e) && e.status_code
            == status_of(rejection_kind(rej)) && e.error@ == label_of(rejection_kind(rej))
            && e.message@ == rejection_message(rej))),
        (gate_spec(method, path@, header_view(auth_header), secret@, now) matches
            GateOutcome::Cleared(t) ==> (if t.validated {
            forwards_to(r, t, method, body) || rejects_bad_payload(r)
        } else {
            forwards_to(r, t, method, body)
        })),
{
    let target = match resolve_route(method, path) {
        None => {
            return Decision::Reject(to_envelope(ErrorKind::RouteNotFound, "Route not found"));
        },
        Some(t) => t,
    };
    if target.auth_required {
        match AuthMiddleware::validate_token(auth_header, secret, now) {
            Ok(_) => (),
            Err(rej) => {
                return Decision::Reject(rejection_envelope(rej));
            },
        }
    }
    if target.validated {
        let parsed = parse_auth_request(body.as_ref());
        match screen_auth_payload(parsed) {
            Ok(_) => (),
            Err(e) => {
                return Decision::Reject(e);
            },
        }
    }
    let mut out_path = "/".to_owned();
    out_path.append(target.endpoint.as_str());
    Decision::Forward(
        ForwardDirective { backend: target.backend, path: out_path, method, body },
    )
}

/// Turns the forwarder's result into the final response: a relayed backend
/// response keeps its status code and body untouched, and a failure is
/// mapped through the envelope table with its description as the message.
pub fn respond(result: ProxyResult) -> (r: GatewayResponse)
    ensures
        (result matches ProxyResult::Relayed { status_code, body } ==> r == (
        GatewayResponse::Upstream { status_code, body })),
        (result matches ProxyResult::Failed { kind, details } ==> (r matches
            GatewayResponse::Error(e) && e.status_code == status_of(kind) && e.error@ == label_of(
            kind,
        ) && e.message@ == details@)),
{
    match result {
        ProxyResult::Relayed { status_code, body } => GatewayResponse::Upstream {
            status_code,
            body,
        },
        ProxyResult::Failed { kind, details } => GatewayResponse::Error(
            to_envelope(kind, details.as_str()),
        ),
    }
}

/// Every request to a protected route that arrives without an
/// `Authorization` header is stopped at the auth gate, and the rejection's
/// envelope classification carries status 401 under the fixed
/// "Unauthorized" label.
pub proof fn lemma_missing_auth_rejected(
    method: HttpMethod,
    path: Seq<char>,
    secret: Seq<char>,
    now: usize,
)
    requires
        route_spec(method, path) matches Some(t) && t.auth_required,
    ensures
        gate_spec(method, path, None, secret, now) == GateOutcome::AuthRejected(
            AuthRejection::MissingHeader,
        ),
        status_of(rejection_kind(AuthRejection::MissingHeader)) == 401,
        label_of(rejection_kind(AuthRejection::MissingHeader)) == "Unauthorized"@,
{
}

/// A transport-level failure surfaces as 503 Service Unavailable, never as
/// a 500 internal error.
pub proof fn lemma_unreachable_is_503()
    ensures
        status_of(ErrorKind::BackendUnreachable) == 503,
        label_of(ErrorKind::BackendUnreachable) == "Service Unavailable"@,
        status_of(ErrorKind::BackendUnreachable) != 500,
{
}

} // verus!

