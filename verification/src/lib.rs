//! A verified core for an HTTP API gateway that fronts three backend
//! services (user, chat, message).
//!
//! The library holds the gateway's decision logic: resolving a route from
//! the inbound method and path, gating protected routes on a bearer token,
//! validating structured request bodies, planning the single outbound
//! forward, interpreting the backend's answer, aggregating backend health,
//! and mapping every failure to a uniform error envelope.  Network I/O,
//! the HTTP server, and the clock live outside the library and hand it
//! plain values.

pub mod auth;
pub mod error;
pub mod gateway;
pub mod health;
pub mod proxy;
pub mod routing;
pub mod strutil;
pub mod validation;
