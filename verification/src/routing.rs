//! The router: maps an inbound method and path to a target backend, an
//! authentication requirement, and a validation requirement, or to a
//! "no route" outcome.
//!
//! Each scope supports exactly one trailing path segment (`/api/auth/{x}`,
//! `/api/users/{x}`, `/api/chat/{x}`, `/api/messages/{x}`); deeper paths do
//! not match.  The auth scope is registered for POST only; the other three
//! scopes for GET, POST, PUT and DELETE.

use vstd::prelude::*;

use crate::strutil::{spec_starts_with, str_eq, str_starts_with};

verus! {

/// The closed set of inbound HTTP methods the gateway distinguishes.
/// Everything the forwarder cannot proxy collapses into `Other`.
#[derive(Clone, Copy, PartialEq, Eq, Structural, Debug)]
pub enum HttpMethod {
    Get,
    Post,
    Put,
    Delete,
    Other,
}

/// The three backend services the gateway forwards to.
#[derive(Clone, Copy, PartialEq, Eq, Structural, Debug)]
pub enum Backend {
    User,
    Chat,
    Message,
}

/// The immutable service registry and listener configuration, populated
/// once at startup and never mutated afterwards.
pub struct Config {
    pub user_service_url: String,
    pub chat_service_url: String,
    pub message_service_url: String,
    pub port: u16,
}

impl Config {
    /// The base URL registered for a backend.
    pub open spec fn spec_base_url(&self, backend: Backend) -> Seq<char> {
        match backend {
            Backend::User => self.user_service_url@,
            Backend::Chat => self.chat_service_url@,
            Backend::Message => self.message_service_url@,
        }
    }

    /// Looks up the base URL registered for a backend.
    pub fn base_url(&self, backend: Backend) -> (r: &String)
        ensures
            r@ == self.spec_base_url(backend),
    {
        match backend {
            Backend::User => &self.user_service_url,
            Backend::Chat => &self.chat_service_url,
            Backend::Message => &self.message_service_url,
        }
    }
}

/// What the router resolves a request to: the backend, whether the auth
/// gate must clear the request, whether the body must be validated, and
/// the single trailing path segment.
pub struct RouteTarget {
    pub backend: Backend,
    pub auth_required: bool,
    pub validated: bool,
    pub endpoint: String,
}

/// The mathematical image of a `RouteTarget`.
pub struct RouteTargetView {
    pub backend: Backend,
    pub auth_required: bool,
    pub validated: bool,
    pub endpoint: Seq<char>,
}

impl View for RouteTarget {
    type V = RouteTargetView;

    open spec fn view(&self) -> RouteTargetView {
        RouteTargetView {
            backend: self.backend,
            auth_required: self.auth_required,
            validated: self.validated,
            endpoint: self.endpoint@,
        }
    }
}

/// A non-empty path segment: at least one character and no `/`.
pub open spec fn is_single_segment(s: Seq<char>) -> bool {
    s.len() > 0 && forall|i: int| 0 <= i < s.len() ==> #[trigger] s[i] != '/'
}

/// The trailing segment of `path` under the scope `prefix`, if `path` is
/// exactly `prefix` followed by one non-empty segment.
pub open spec fn scope_endpoint(path: Seq<char>, prefix: Seq<char>) -> Option<Seq<char>> {
    if spec_starts_with(path, prefix) && is_single_segment(path.skip(prefix.len() as int)) {
        Some(path.skip(prefix.len() as int))
    } else {
        None
    }
}

/// The methods for which the non-auth scopes are registered.
pub open spec fn methods_registered(m: HttpMethod) -> bool {
    m is Get || m is Post || m is Put || m is Delete
}

/// The routing table: which backend serves a method and path, whether the
/// request must first clear the auth gate, and whether its body is
/// validated.  `None` is the "no route" outcome.
pub open spec fn route_spec(method: HttpMethod, path: Seq<char>) -> Option<RouteTargetView> {
    match scope_endpoint(path, "/api/auth/"@) {
        Some(e) => if method is Post {
            Some(
                RouteTargetView {
                    backend: Backend::User,
                    auth_required: false,
                    validated: e == "login"@ || e == "register"@,
                    endpoint: e,
                },
            )
        } else {
            None
        },
        None => match scope_endpoint(path, "/api/users/"@) {
            Some(e) => if methods_registered(method) {
                Some(
                    RouteTargetView {
                        backend: Backend::User,
                        auth_required: false,
                        validated: false,
                        endpoint: e,
                    },
                )
            } else {
                None
            },
            None => match scope_endpoint(path, "/api/chat/"@) {
                Some(e) => if methods_registered(method) {
                    Some(
                        RouteTargetView {
                            backend: Backend::Chat,
                            auth_required: true,
                            validated: false,
                            endpoint: e,
                        },
                    )
                } else {
                    None
                },
                None => match scope_endpoint(path, "/api/messages/"@) {
                    Some(e) => if methods_registered(method) {
                        Some(
                            RouteTargetView {
                                backend: Backend::Message,
                                auth_required: true,
                                validated: false,
                                endpoint: e,
                            },
                        )
                    } else {
                        None
                    },
                    None => None,
                },
            },
        },
    }
}

/// Extracts the trailing segment of `path` under `prefix`, exactly when
/// `scope_endpoint` names one.
fn match_scope(path: &str, prefix: &str) -> (r: Option<String>)
    ensures
        r matches Some(e) ==> scope_endpoint(path@, prefix@) == Some(e@),
        r is None ==> scope_endpoint(path@, prefix@) is None,
{
    if !str_starts_with(path, prefix) {
        return None;
    }
    let plen = prefix.unicode_len();
    let slen = path.unicode_len();
    let rest = path.substring_char(plen, slen);
    proof {
        assert(rest@ =~= path@.skip(plen as int));
    }
    let rlen = rest.unicode_len();
    if rlen == 0 {
        return None;
    }
    let mut i: usize = 0;
    while i < rlen
        invariant
            i <= rlen,
            rlen == rest@.len(),
            plen == prefix@.len(),
            rest@ == path@.skip(plen as int),
            forall|j: int| 0 <= j < i ==> #[trigger] rest@[j] != '/',
        decreases rlen - i,
    {
        if rest.get_char(i) == '/' {
            proof {
                assert(path@.skip(plen as int)[i as int] == '/');
            }
            return None;
        }
        i += 1;
    }
    Some(rest.to_owned())
}

/// Resolves an inbound method and path against the routing table.
pub fn resolve_route(method: HttpMethod, path: &str) -> (r: Option<RouteTarget>)
    ensures
        r matches Some(t) ==> route_spec(method, path@) == Some(t@),
        r is None ==> route_spec(method, path@) is None,
{
    let registered = match method {
        HttpMethod::Get => true,
        HttpMethod::Post => true,
        HttpMethod::Put => true,
        HttpMethod::Delete => true,
        HttpMethod::Other => false,
    };
    if let Some(endpoint) = match_scope(path, "/api/auth/") {
        if let HttpMethod::Post = method {
            let validated = str_eq(endpoint.as_str(), "login") || str_eq(
                endpoint.as_str(),
                "register",
            );
            Some(
                RouteTarget { backend: Backend::User, auth_required: false, validated, endpoint },
            )
        } else {
            None
        }
    } else if let Some(endpoint) = match_scope(path, "/api/users/") {
        if registered {
            Some(
                RouteTarget {
                    backend: Backend::User,
                    auth_required: false,
                    validated: false,
                    endpoint,
                },
            )
        } else {
            None
        }
    } else if let Some(endpoint) = match_scope(path, "/api/chat/") {
        if registered {
            Some(
                RouteTarget {
                    backend: Backend::Chat,
                    auth_required: true,
                    validated: false,
                    endpoint,
                },
            )
        } else {
            None
        }
    } else if let Some(endpoint) = match_scope(path, "/api/messages/") {
        if registered {
            Some(
                RouteTarget {
                    backend: Backend::Message,
                    auth_required: true,
                    validated: false,
                    endpoint,
                },
            )
        } else {
            None
        }
    } else {
        None
    }
}

} // verus!
