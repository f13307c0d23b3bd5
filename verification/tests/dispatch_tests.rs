//! Tests for the router, the dispatch pipeline, the proxy forwarder, the
//! health aggregator, and the error mapper.

use gateway_service::error::{to_envelope, ApiError, ErrorKind};
use gateway_service::gateway::{dispatch, respond, screen_auth_payload, Decision, GatewayResponse};
use gateway_service::health::{aggregate_health, classify_probe, ProbeOutcome, StatusBoard};
use gateway_service::proxy::{interpret_outcome, prepare_forward, ProxyRequest, ProxyResult, TransportOutcome};
use gateway_service::routing::{resolve_route, Backend, Config, HttpMethod};
use gateway_service::validation::AuthRequest;

fn test_config() -> Config {
    Config {
        user_service_url: "http://localhost:3001".to_string(),
        chat_service_url: "http://localhost:3002".to_string(),
        message_service_url: "http://localhost:3003".to_string(),
        port: 8000,
    }
}

fn obj(pairs: &[(&str, &str)]) -> serde_json::Value {
    let mut m = serde_json::Map::new();
    for (k, v) in pairs {
        m.insert(k.to_string(), serde_json::Value::String(v.to_string()));
    }
    serde_json::Value::Object(m)
}

#[test]
fn test_service_proxy_configuration() {
    let config = test_config();
    assert_eq!(config.user_service_url, "http://localhost:3001");
    assert_eq!(config.chat_service_url, "http://localhost:3002");
    assert_eq!(config.message_service_url, "http://localhost:3003");
    assert_eq!(config.port, 8000);
}

#[test]
fn test_request_forwarding_logic() {
    let auth = resolve_route(HttpMethod::Post, "/api/auth/login").unwrap();
    assert_eq!(auth.backend, Backend::User);
    assert!(!auth.auth_required);
    assert!(auth.validated);

    let register = resolve_route(HttpMethod::Post, "/api/auth/register").unwrap();
    assert!(register.validated);

    let users = resolve_route(HttpMethod::Get, "/api/users/profile").unwrap();
    assert_eq!(users.backend, Backend::User);
    assert!(!users.auth_required);
    assert!(!users.validated);

    let chat = resolve_route(HttpMethod::Get, "/api/chat/rooms").unwrap();
    assert_eq!(chat.backend, Backend::Chat);
    assert!(chat.auth_required);

    let messages = resolve_route(HttpMethod::Get, "/api/messages/history").unwrap();
    assert_eq!(messages.backend, Backend::Message);
    assert!(messages.auth_required);
}

#[test]
fn routes_only_single_trailing_segments() {
    assert!(resolve_route(HttpMethod::Get, "/api/users/a/b").is_none());
    assert!(resolve_route(HttpMethod::Get, "/api/users/").is_none());
    assert!(resolve_route(HttpMethod::Get, "/api/users").is_none());
    assert!(resolve_route(HttpMethod::Get, "/health").is_none());
    assert!(resolve_route(HttpMethod::Get, "/").is_none());
    assert!(resolve_route(HttpMethod::Get, "/api/auth/login").is_none());
    assert!(resolve_route(HttpMethod::Other, "/api/users/profile").is_none());

    let other_auth = resolve_route(HttpMethod::Post, "/api/auth/refresh").unwrap();
    assert_eq!(other_auth.backend, Backend::User);
    assert!(!other_auth.validated);
    assert_eq!(other_auth.endpoint, "refresh");
}

#[test]
fn missing_header_on_protected_route_is_401_unauthorized() {
    let decision = dispatch(
        HttpMethod::Get,
        "/api/chat/rooms",
        None,
        None,
        "test-secret",
        0,
    );
    match decision {
        Decision::Reject(e) => {
            assert_eq!(e.status_code, 401);
            assert_eq!(e.error, "Unauthorized");
            assert_eq!(e.message, "Authorization header missing");
        }
        Decision::Forward(_) => panic!("request must not be forwarded"),
    }
}

#[test]
fn malformed_scheme_on_protected_route_is_400() {
    let header = "Token abc".to_string();
    let decision = dispatch(
        HttpMethod::Get,
        "/api/messages/history",
        Some(&header),
        None,
        "test-secret",
        0,
    );
    match decision {
        Decision::Reject(e) => {
            assert_eq!(e.status_code, 400);
            assert_eq!(e.error, "Bad Request");
            assert_eq!(e.message, "Invalid authorization header format");
        }
        Decision::Forward(_) => panic!("request must not be forwarded"),
    }
}

#[test]
fn bad_token_on_protected_route_is_401_generic() {
    let header = "Bearer not.a.jwt".to_string();
    let decision = dispatch(
        HttpMethod::Get,
        "/api/chat/rooms",
        Some(&header),
        None,
        "test-secret",
        0,
    );
    match decision {
        Decision::Reject(e) => {
            assert_eq!(e.status_code, 401);
            assert_eq!(e.error, "Unauthorized");
            assert_eq!(e.message, "Invalid or expired token");
        }
        Decision::Forward(_) => panic!("request must not be forwarded"),
    }
}

#[test]
fn unrouted_request_is_404_before_anything_else() {
    let decision = dispatch(HttpMethod::Get, "/nope", None, None, "test-secret", 0);
    match decision {
        Decision::Reject(e) => {
            assert_eq!(e.status_code, 404);
            assert_eq!(e.error, "Not Found");
        }
        Decision::Forward(_) => panic!("request must not be forwarded"),
    }
}

#[test]
fn login_body_missing_fields_is_400_without_forwarding() {
    let body = obj(&[("username", "testuser")]);
    let decision = dispatch(
        HttpMethod::Post,
        "/api/auth/login",
        None,
        Some(body),
        "test-secret",
        0,
    );
    match decision {
        Decision::Reject(e) => {
            assert_eq!(e.status_code, 400);
            assert_eq!(e.error, "Bad Request");
            assert_eq!(e.message, "Invalid request format");
        }
        Decision::Forward(_) => panic!("invalid login body must not reach the forwarder"),
    }

    let body = obj(&[("password", "password123")]);
    let decision = dispatch(
        HttpMethod::Post,
        "/api/auth/register",
        None,
        Some(body),
        "test-secret",
        0,
    );
    assert!(matches!(decision, Decision::Reject(_)));
}

#[test]
fn login_body_breaking_field_rules_is_400() {
    let body = obj(&[("username", "ab"), ("password", "password123")]);
    let decision = dispatch(
        HttpMethod::Post,
        "/api/auth/login",
        None,
        Some(body),
        "test-secret",
        0,
    );
    match decision {
        Decision::Reject(e) => {
            assert_eq!(e.status_code, 400);
            assert_eq!(e.message, "Validation failed");
        }
        Decision::Forward(_) => panic!("invalid login body must not reach the forwarder"),
    }
}

#[test]
fn valid_login_body_is_forwarded_with_its_body() {
    let body = obj(&[("username", "testuser"), ("password", "password123")]);
    let decision = dispatch(
        HttpMethod::Post,
        "/api/auth/login",
        None,
        Some(body.clone()),
        "test-secret",
        0,
    );
    match decision {
        Decision::Forward(d) => {
            assert_eq!(d.backend, Backend::User);
            assert_eq!(d.method, HttpMethod::Post);
            assert_eq!(d.path, "/login");
            assert_eq!(d.body, Some(body));
        }
        Decision::Reject(e) => panic!("valid login rejected: {}", e.message),
    }
}

#[test]
fn screen_auth_payload_decides_exactly() {
    assert!(screen_auth_payload(None).is_err());
    let invalid = AuthRequest { username: "ab".to_string(), password: "password123".to_string() };
    assert!(screen_auth_payload(Some(invalid)).is_err());
    let valid =
        AuthRequest { username: "testuser".to_string(), password: "password123".to_string() };
    assert!(screen_auth_payload(Some(valid)).is_ok());
}

#[test]
fn put_forwards_body_and_get_never_does() {
    let config = test_config();
    let body = obj(&[("bio", "hello")]);

    let decision = dispatch(
        HttpMethod::Put,
        "/api/users/profile",
        None,
        Some(body.clone()),
        "test-secret",
        0,
    );
    let directive = match decision {
        Decision::Forward(d) => d,
        Decision::Reject(e) => panic!("unexpected rejection: {}", e.message),
    };
    assert_eq!(directive.path, "/profile");

    let outbound = prepare_forward(
        config.base_url(directive.backend).as_str(),
        ProxyRequest { method: directive.method, path: directive.path, body: directive.body },
    )
    .unwrap();
    assert_eq!(outbound.url, "http://localhost:3001/profile");
    assert_eq!(outbound.method, HttpMethod::Put);
    assert_eq!(outbound.body, Some(body.clone()));
    assert_eq!(outbound.timeout_secs, 30);

    let outbound = prepare_forward(
        "http://localhost:3001",
        ProxyRequest {
            method: HttpMethod::Get,
            path: "/profile".to_string(),
            body: Some(body),
        },
    )
    .unwrap();
    assert_eq!(outbound.body, None);
}

#[test]
fn unsupported_method_is_405_without_a_call() {
    let err = prepare_forward(
        "http://localhost:3001",
        ProxyRequest { method: HttpMethod::Other, path: "/profile".to_string(), body: None },
    )
    .unwrap_err();
    match err {
        ProxyResult::Failed { kind, details } => {
            assert_eq!(kind, ErrorKind::MethodNotSupported);
            assert_eq!(details, "Method not allowed");
        }
        ProxyResult::Relayed { .. } => panic!("unsupported method must not be relayed"),
    }
}

#[test]
fn transport_failure_becomes_503_never_500() {
    let outcome = TransportOutcome::TransportError { details: "connection refused".to_string() };
    let result = interpret_outcome(outcome);
    match respond(result) {
        GatewayResponse::Error(e) => {
            assert_eq!(e.status_code, 503);
            assert_ne!(e.status_code, 500);
            assert_eq!(e.error, "Service Unavailable");
            assert_eq!(e.message, "connection refused");
        }
        GatewayResponse::Upstream { .. } => panic!("a transport failure must map to an envelope"),
    }
}

#[test]
fn backend_response_round_trips_with_status() {
    let original = r#"{"items":[1,2,3],"next":null,"note":"hi"}"#;
    let value: serde_json::Value = serde_json::from_str(original).unwrap();
    let outcome =
        TransportOutcome::Responded { status_code: 207, body: Some(value.clone()) };
    match respond(interpret_outcome(outcome)) {
        GatewayResponse::Upstream { status_code, body } => {
            assert_eq!(status_code, 207);
            assert_eq!(body, Some(value));
        }
        GatewayResponse::Error(_) => panic!("a received response must be relayed"),
    }
}

#[test]
fn unparseable_backend_body_relays_null_with_status() {
    let outcome = TransportOutcome::Responded { status_code: 502, body: None };
    match respond(interpret_outcome(outcome)) {
        GatewayResponse::Upstream { status_code, body } => {
            assert_eq!(status_code, 502);
            assert_eq!(body, None);
        }
        GatewayResponse::Error(_) => panic!("an unparseable body must not fail the request"),
    }
}

#[test]
fn health_all_reachable_is_all_healthy() {
    let config = test_config();
    let up = ProbeOutcome::Responded { status_code: 200 };
    let report = aggregate_health(&config, up, up, up, 10);
    assert_eq!(report.status, "healthy");
    assert_eq!(report.version, "1.0.0");
    assert_eq!(report.services.len(), 3);
    assert_eq!(report.services[0].name, "User Service");
    assert_eq!(report.services[0].url, "http://localhost:3001");
    assert_eq!(report.services[1].name, "Chat Service");
    assert_eq!(report.services[2].name, "Message Service");
    for s in &report.services {
        assert_eq!(s.status, "healthy");
    }
    assert_eq!(report.timestamp, "1970-01-01T00:00:10+00:00");
    assert_eq!(report.services[0].last_checked, "1970-01-01T00:00:10+00:00");
}

#[test]
fn health_one_unreachable_keeps_gateway_healthy() {
    let config = test_config();
    let up = ProbeOutcome::Responded { status_code: 204 };
    let report = aggregate_health(&config, up, ProbeOutcome::Unreachable, up, 11);
    assert_eq!(report.status, "healthy");
    assert_eq!(report.services[0].status, "healthy");
    assert_eq!(report.services[1].status, "unhealthy");
    assert_eq!(report.services[2].status, "healthy");
}

#[test]
fn probe_classification_is_success_range_only() {
    assert!(classify_probe(ProbeOutcome::Responded { status_code: 200 }));
    assert!(classify_probe(ProbeOutcome::Responded { status_code: 299 }));
    assert!(!classify_probe(ProbeOutcome::Responded { status_code: 199 }));
    assert!(!classify_probe(ProbeOutcome::Responded { status_code: 300 }));
    assert!(!classify_probe(ProbeOutcome::Responded { status_code: 503 }));
    assert!(!classify_probe(ProbeOutcome::Unreachable));
}

#[test]
fn status_board_replaces_snapshot_wholesale() {
    let config = test_config();
    let up = ProbeOutcome::Responded { status_code: 200 };
    let mut board = StatusBoard::new();
    assert!(board.snapshot.is_none());
    assert_eq!(board.taken_at, 0);
    board.publish(aggregate_health(&config, up, up, up, 5), 5);
    assert_eq!(board.taken_at, 5);
    board.publish(aggregate_health(&config, up, ProbeOutcome::Unreachable, up, 9), 9);
    assert_eq!(board.taken_at, 9);
    let snapshot = board.snapshot.as_ref().unwrap();
    assert_eq!(snapshot.services[1].status, "unhealthy");
}

#[test]
fn test_service_status_tracking() {
    let mut statuses = std::collections::HashMap::new();
    let service_status = gateway_service::health::ServiceStatus {
        name: "test-service".to_string(),
        url: "http://localhost:3001".to_string(),
        status: "unknown".to_string(),
        last_checked: chrono::Utc::now().to_rfc3339(),
    };
    statuses.insert("test-service".to_string(), service_status);
    assert_eq!(statuses.len(), 1);
    assert_eq!(statuses.get("test-service").unwrap().name, "test-service");
}

#[test]
fn test_error_responses() {
    let api_error = ApiError::bad_request("Invalid input");
    assert_eq!(api_error.status_code, 400);

    let api_error = ApiError::unauthorized("Access denied");
    assert_eq!(api_error.status_code, 401);

    let api_error = ApiError::not_found("Resource not found");
    assert_eq!(api_error.status_code, 404);

    let api_error = ApiError::internal_error("Server error");
    assert_eq!(api_error.status_code, 500);
}

#[test]
fn test_error_serialization() {
    let api_error = ApiError::bad_request("Test error");
    let mut m = serde_json::Map::new();
    m.insert("error".to_string(), serde_json::Value::String(api_error.error.clone()));
    m.insert("message".to_string(), serde_json::Value::String(api_error.message.clone()));
    m.insert("status_code".to_string(), serde_json::Value::from(api_error.status_code));
    let json_response = serde_json::to_string(&serde_json::Value::Object(m)).unwrap();
    assert!(json_response.contains("Test error"));
    assert!(json_response.contains("Bad Request"));
}

#[test]
fn envelope_table_is_fixed() {
    let cases: [(ErrorKind, u16, &str); 8] = [
        (ErrorKind::MissingAuth, 401, "Unauthorized"),
        (ErrorKind::MalformedAuthHeader, 400, "Bad Request"),
        (ErrorKind::InvalidOrExpiredToken, 401, "Unauthorized"),
        (ErrorKind::ValidationFailed, 400, "Bad Request"),
        (ErrorKind::RouteNotFound, 404, "Not Found"),
        (ErrorKind::MethodNotSupported, 405, "Method Not Allowed"),
        (ErrorKind::BackendUnreachable, 503, "Service Unavailable"),
        (ErrorKind::InternalSerializationFault, 500, "Internal Server Error"),
    ];
    for (kind, status, label) in cases {
        let e = to_envelope(kind, "details");
        assert_eq!(e.status_code, status);
        assert_eq!(e.error, label);
        assert_eq!(e.message, "details");
    }
}

#[test]
fn users_scope_stays_open_while_chat_and_messages_are_protected() {
    let users = resolve_route(HttpMethod::Get, "/api/users/profile").unwrap();
    assert!(!users.auth_required);
    let chat = resolve_route(HttpMethod::Get, "/api/chat/rooms").unwrap();
    assert!(chat.auth_required);
    let messages = resolve_route(HttpMethod::Post, "/api/messages/send").unwrap();
    assert!(messages.auth_required);
}
