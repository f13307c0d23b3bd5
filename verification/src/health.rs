//! The health aggregator: turns per-backend probe outcomes into the
//! consolidated, timestamped status report.
//!
//! Each invocation is a fresh fan-out: the transport probes every
//! registered backend's root path with a short timeout and reports the
//! outcomes; this module classifies them and assembles the snapshot in
//! registration order (user, chat, message).  The gateway's own top-level
//! status is independent of backend health.

use vstd::prelude::*;

use crate::routing::Config;

verus! {

/// The fixed per-probe timeout, in seconds; deliberately shorter than the
/// forwarder's total-call timeout.
pub const PROBE_TIMEOUT_SECS: u64 = 5;

/// The version string the gateway reports.
pub const GATEWAY_VERSION: &'static str = "1.0.0";

/// What a health probe observed: a response with its status code, or no
/// response at all (connection, DNS, TLS or timeout failure).
#[derive(Clone, Copy, PartialEq, Eq, Structural, Debug)]
pub enum ProbeOutcome {
    Responded { status_code: u16 },
    Unreachable,
}

/// A backend is healthy exactly when a response was received with a
/// success-range status code; a reachable backend answering outside the
/// success range counts as unhealthy just like an unreachable one.
pub open spec fn probe_healthy(o: ProbeOutcome) -> bool {
    o matches ProbeOutcome::Responded { status_code } && 200 <= status_code < 300
}

/// The status text recorded for a probe outcome.
pub open spec fn status_text(o: ProbeOutcome) -> Seq<char> {
    if probe_healthy(o) {
        "healthy"@
    } else {
        "unhealthy"@
    }
}

/// Classifies a probe outcome.
pub fn classify_probe(o: ProbeOutcome) -> (r: bool)
    ensures
        r == probe_healthy(o),
{
    match o {
        ProbeOutcome::Responded { status_code } => 200 <= status_code && status_code < 300,
        ProbeOutcome::Unreachable => false,
    }
}

/// What formatting a timestamp as RFC 3339 yields.  The rendering of a
/// given second count in UTC is fixed, so the result depends on the
/// seconds alone.
pub uninterp spec fn rfc3339_of(secs: u64) -> Seq<char>;

/// Relies on `chrono`: `DateTime::from_timestamp` and
/// `DateTime::to_rfc3339` render a second count since the epoch as an
/// RFC 3339 timestamp in UTC.
#[verifier::external_body]
fn format_rfc3339(secs: u64) -> (r: String)
    ensures
        r@ == rfc3339_of(secs),
{
    match chrono::DateTime::from_timestamp(secs as i64, 0) {
        Some(dt) => dt.to_rfc3339(),
        None => String::new(),
    }
}

/// One backend's entry in the health snapshot.
#[derive(Debug)]
pub struct ServiceStatus {
    pub name: String,
    pub url: String,
    pub status: String,
    pub last_checked: String,
}

/// The consolidated health report: the gateway's own status, its version,
/// one entry per backend in registration order, and the snapshot time.
#[derive(Debug)]
pub struct HealthResponse {
    pub status: String,
    pub version: String,
    pub services: Vec<ServiceStatus>,
    pub timestamp: String,
}

/// Builds one backend's snapshot entry from its probe outcome, stamped
/// with the check time.
pub fn service_status_from_probe(name: &str, url: &str, outcome: ProbeOutcome, now_secs: u64) -> (r:
    ServiceStatus)
    ensures
        r.name@ == name@,
        r.url@ == url@,
        r.status@ == status_text(outcome),
        r.last_checked@ == rfc3339_of(now_secs),
{
    let status = if classify_probe(outcome) {
        "healthy".to_owned()
    } else {
        "unhealthy".to_owned()
    };
    ServiceStatus {
        name: name.to_owned(),
        url: url.to_owned(),
        status,
        last_checked: format_rfc3339(now_secs),
    }
}

/// Assembles the consolidated report from the three probe outcomes.  The
/// top-level status is the gateway's own and reads "healthy" whatever the
/// backends answered; the entries keep registration order.
pub fn aggregate_health(
    config: &Config,
    user: ProbeOutcome,
    chat: ProbeOutcome,
    message: ProbeOutcome,
    now_secs: u64,
) -> (r: HealthResponse)
    ensures
        r.status@ == "healthy"@,
        r.version@ == GATEWAY_VERSION@,
        r.timestamp@ == rfc3339_of(now_secs),
        r.services@.len() == 3,
        r.services@[0].name@ == "User Service"@,
        r.services@[0].url@ == config.user_service_url@,
        r.services@[0].status@ == status_text(user),
        r.services@[0].last_checked@ == rfc3339_of(now_secs),
        r.services@[1].name@ == "Chat Service"@,
        r.services@[1].url@ == config.chat_service_url@,
        r.services@[1].status@ == status_text(chat),
        r.services@[1].last_checked@ == rfc3339_of(now_secs),
        r.services@[2].name@ == "Message Service"@,
        r.services@[2].url@ == config.message_service_url@,
        r.services@[2].status@ == status_text(message),
        r.services@[2].last_checked@ == rfc3339_of(now_secs),
{
    let mut services: Vec<ServiceStatus> = Vec::new();
    services.push(
        service_status_from_probe(
            "User Service",
            config.user_service_url.as_str(),
            user,
            now_secs,
        ),
    );
    services.push(
        service_status_from_probe(
            "Chat Service",
            config.chat_service_url.as_str(),
            chat,
            now_secs,
        ),
    );
    services.push(
        service_status_from_probe(
            "Message Service",
            config.message_service_url.as_str(),
            message,
            now_secs,
        ),
    );
    HealthResponse {
        status: "healthy".to_owned(),
        version: GATEWAY_VERSION.to_owned(),
        services,
        timestamp: format_rfc3339(now_secs),
    }
}

/// The published health snapshot, replaced wholesale by each check.  The
/// snapshot time never decreases: each publication stamps a time at least
/// as late as the one it replaces.
pub struct StatusBoard {
    pub snapshot: Option<HealthResponse>,
    pub taken_at: u64,
}

impl StatusBoard {
    /// An empty board: nothing published yet.
    pub fn new() -> (r: StatusBoard)
        ensures
            r.snapshot is None,
            r.taken_at == 0,
    {
        StatusBoard { snapshot: None, taken_at: 0 }
    }

    /// Replaces the whole snapshot atomically.  The caller hands the time
    /// the report was taken, which must not precede the published one.
    pub fn publish(&mut self, report: HealthResponse, now_secs: u64)
        requires
            now_secs >= old(self).taken_at,
        ensures
            final(self).snapshot == Some(report),
            final(self).taken_at == now_secs,
            final(self).taken_at >= old(self).taken_at,
    {
        self.snapshot = Some(report);
        self.taken_at = now_secs;
    }
}

} // verus!
