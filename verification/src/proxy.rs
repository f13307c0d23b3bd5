//! The proxy forwarder: plans the single outbound call for a request and
//! interprets the transport's outcome.
//!
//! The forwarder issues exactly one outbound attempt, bounded by a fixed
//! total-call timeout.  GET and DELETE never carry a body; POST and PUT
//! carry the inbound JSON body when one is present; any other method is
//! refused without a network call.  A received response is relayed with
//! its status code preserved verbatim; a transport-level failure becomes
//! the backend-unreachable classification.

use vstd::prelude::*;

use crate::error::ErrorKind;
use crate::routing::HttpMethod;

verus! {

/// JSON values pass through the gateway opaquely; the `serde_json` type
/// carries them.
#[verifier::external_type_specification]
#[verifier::external_body]
pub struct ExValue(serde_json::Value);

/// The fixed total-call timeout for a proxied request, in seconds.
pub const FORWARD_TIMEOUT_SECS: u64 = 30;

/// An inbound request reduced to what the forwarder needs: the method, the
/// target path on the backend, and the JSON body if one was supplied.
#[derive(Debug)]
pub struct ProxyRequest {
    pub method: HttpMethod,
    pub path: String,
    pub body: Option<serde_json::Value>,
}

/// The one outbound call the transport is asked to perform.  `body` is
/// `None` when the outbound request must carry no body.
#[derive(Debug)]
pub struct OutboundRequest {
    pub url: String,
    pub method: HttpMethod,
    pub body: Option<serde_json::Value>,
    pub timeout_secs: u64,
}

/// What the forwarder produces: a relayed backend response (a `None` body
/// relays JSON null), or a failure classification with its description.
#[derive(Debug)]
pub enum ProxyResult {
    Relayed { status_code: u16, body: Option<serde_json::Value> },
    Failed { kind: ErrorKind, details: String },
}

/// What the transport reports back for an attempted outbound call.  A
/// `None` body means the backend's body could not be parsed as JSON.
#[derive(Debug)]
pub enum TransportOutcome {
    Responded { status_code: u16, body: Option<serde_json::Value> },
    TransportError { details: String },
}

/// The methods the forwarder is willing to proxy.
pub open spec fn method_supported(m: HttpMethod) -> bool {
    m is Get || m is Post || m is Put || m is Delete
}

/// Plans the outbound call for a request against a backend's base URL:
/// the outbound URL is the base URL followed by the target path, the
/// method passes through unchanged, only POST and PUT carry the supplied
/// body, and an unsupported method is refused without a network call.
pub fn prepare_forward(base_url: &str, req: ProxyRequest) -> (r: Result<
    OutboundRequest,
    ProxyResult,
>)
    ensures
        r is Ok <==> method_supported(req.method),
        r matches Ok(o) ==> {
            &&& o.url@ == base_url@ + req.path@
            &&& o.method == req.method
            &&& o.timeout_secs == FORWARD_TIMEOUT_SECS
            &&& (req.method is Post || req.method is Put) ==> o.body == req.body
            &&& (req.method is Get || req.method is Delete) ==> o.body is None
        },
        (r matches Err(p) ==> (p matches ProxyResult::Failed { kind, details }
            && kind == ErrorKind::MethodNotSupported && details@ == "Method not allowed"@)),
{
    let mut url = base_url.to_owned();
    url.append(req.path.as_str());
    match req.method {
        HttpMethod::Get | HttpMethod::Delete => Ok(
            OutboundRequest {
                url,
                method: req.method,
                body: None,
                timeout_secs: FORWARD_TIMEOUT_SECS,
            },
        ),
        HttpMethod::Post | HttpMethod::Put => Ok(
            OutboundRequest {
                url,
                method: req.method,
                body: req.body,
                timeout_secs: FORWARD_TIMEOUT_SECS,
            },
        ),
        HttpMethod::Other => Err(
            ProxyResult::Failed {
                kind: ErrorKind::MethodNotSupported,
                details: "Method not allowed".to_owned(),
            },
        ),
    }
}

/// Interprets what the transport reported.  A received response is relayed
/// with its status code and body untouched, whatever the status code and
/// whether or not the body parsed; a transport-level failure becomes the
/// backend-unreachable classification carrying the error's description.
pub fn interpret_outcome(outcome: TransportOutcome) -> (r: ProxyResult)
    ensures
        (outcome matches TransportOutcome::Responded { status_code, body } ==> r == (
        ProxyResult::Relayed { status_code, body })),
        (outcome matches TransportOutcome::TransportError { details } ==> (r
            matches ProxyResult::Failed { kind, details: d } && kind
            == ErrorKind::BackendUnreachable && d@ == details@)),
{
    match outcome {
        TransportOutcome::Responded { status_code, body } => ProxyResult::Relayed {
            status_code,
            body,
        },
        TransportOutcome::TransportError { details } => ProxyResult::Failed {
            kind: ErrorKind::BackendUnreachable,
            details,
        },
    }
}

} // verus!
