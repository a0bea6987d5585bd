//! The gateway's health report: one status per dependency, and the overall
//! verdict.
use vstd::prelude::*;
use crate::text::str_eq;

verus! {

/// The state of one dependency, or of the gateway as a whole.
#[derive(Debug, Clone, Copy, PartialEq, Eq, Structural)]
pub enum ServiceStatus {
    Healthy,
    Degraded,
}

/// The report for one dependency.
#[derive(Debug, Clone)]
pub struct ComponentStatus {
    pub status: ServiceStatus,
    pub latency_ms: u128,
    pub message: Option<String>,
    pub detail: Option<String>,
}

/// The reports for all dependencies of the gateway.
#[derive(Debug, Clone)]
pub struct GatewayComponents {
    pub database: ComponentStatus,
    pub mir_queue: ComponentStatus,
    pub rdf_queue: ComponentStatus,
    pub storage: ComponentStatus,
    pub inferencer: ComponentStatus,
    pub vector_api: ComponentStatus,
}

/// Every dependency is OK.
pub open spec fn all_ok(c: GatewayComponents) -> bool {
    &&& c.database.status == ServiceStatus::Healthy
    &&& c.mir_queue.status == ServiceStatus::Healthy
    &&& c.rdf_queue.status == ServiceStatus::Healthy
    &&& c.storage.status == ServiceStatus::Healthy
    &&& c.inferencer.status == ServiceStatus::Healthy
    &&& c.vector_api.status == ServiceStatus::Healthy
}

/// The gateway is reported healthy (200) exactly when each of its six
/// dependencies is: the database, both job queues, storage, the inferencer
/// and the vector service; any one that is not makes the report degraded
/// (503).
pub proof fn law_any_unhealthy_dependency_degrades(c: GatewayComponents)
    ensures
        all_ok(c) <==> (c.database.status == ServiceStatus::Healthy && c.mir_queue.status
            == ServiceStatus::Healthy && c.rdf_queue.status == ServiceStatus::Healthy
            && c.storage.status == ServiceStatus::Healthy && c.inferencer.status
            == ServiceStatus::Healthy && c.vector_api.status == ServiceStatus::Healthy),
        c.database.status != ServiceStatus::Healthy ==> !all_ok(c),
        c.mir_queue.status != ServiceStatus::Healthy ==> !all_ok(c),
        c.rdf_queue.status != ServiceStatus::Healthy ==> !all_ok(c),
        c.storage.status != ServiceStatus::Healthy ==> !all_ok(c),
        c.inferencer.status != ServiceStatus::Healthy ==> !all_ok(c),
        c.vector_api.status != ServiceStatus::Healthy ==> !all_ok(c),
{
}

impl GatewayComponents {
    /// Whether every dependency is OK.
    pub fn is_healthy(&self) -> (r: bool)
        ensures
            r == all_ok(*self),
    {
        self.database.status == ServiceStatus::Healthy && self.mir_queue.status == ServiceStatus::Healthy
            && self.rdf_queue.status == ServiceStatus::Healthy && self.storage.status
            == ServiceStatus::Healthy && self.inferencer.status == ServiceStatus::Healthy
            && self.vector_api.status == ServiceStatus::Healthy
    }
}

/// A check's duration in whole milliseconds, rounded up and at least 1, so
/// that a fast check does not show as 0 ms.
pub open spec fn spec_latency_ms(elapsed_micros: u128) -> int {
    let ms = (elapsed_micros as int + 999) / 1000;
    if ms < 1 {
        1
    } else {
        ms
    }
}

/// A check's duration in milliseconds from its duration in microseconds.
pub fn latency_ms(elapsed_micros: u128) -> (r: u128)
    ensures
        r == spec_latency_ms(elapsed_micros),
{
    let ms = elapsed_micros / 1000 + if elapsed_micros % 1000 == 0 { 0 } else { 1 };
    assert(ms == (elapsed_micros as int + 999) / 1000) by (nonlinear_arith)
        requires
            ms == elapsed_micros / 1000 + if elapsed_micros % 1000 == 0 { 0int } else { 1int },
    ;
    if ms < 1 {
        1
    } else {
        ms
    }
}

/// The report for one dependency, from the outcome of its check: healthy
/// with no message when it passed, degraded with the failure's text when it
/// failed.
pub fn component_status(outcome: Result<(), String>, latency_ms: u128, detail: &str) -> (r:
    ComponentStatus)
    ensures
        r.status == (if outcome is Ok { ServiceStatus::Healthy } else { ServiceStatus::Degraded }),
        r.latency_ms == latency_ms,
        match outcome {
            Ok(_) => r.message is None,
            Err(m) => r.message == Some(m),
        },
        r.detail matches Some(d) && d@ == detail@,
{
    let (status, message) = match outcome {
        Ok(()) => (ServiceStatus::Healthy, None),
        Err(m) => (ServiceStatus::Degraded, Some(m)),
    };
    ComponentStatus { status, latency_ms, message, detail: Some(detail.to_owned()) }
}

/// The overall verdict and HTTP status: OK and 200 when every dependency is
/// OK, degraded and 503 otherwise.
pub fn overall_status(components: &GatewayComponents) -> (r: (ServiceStatus, u16))
    ensures
        all_ok(*components) ==> r == (ServiceStatus::Healthy, 200u16),
        !all_ok(*components) ==> r == (ServiceStatus::Degraded, 503u16),
{
    if components.is_healthy() {
        (ServiceStatus::Healthy, 200)
    } else {
        (ServiceStatus::Degraded, 503)
    }
}

/// The reported latency is at least 1 ms and never less than the true
/// duration.
pub proof fn law_latency_rounds_up(elapsed_micros: u128)
    ensures
        spec_latency_ms(elapsed_micros) >= 1,
        spec_latency_ms(elapsed_micros) * 1000 >= elapsed_micros,
{
}

/// The health report of the gateway.
#[derive(Debug, Clone)]
pub struct HealthReport {
    pub service: String,
    pub status: ServiceStatus,
    /// Not tracked yet: always 0.
    pub uptime_seconds: u64,
    pub components: GatewayComponents,
}

/// The report for the gateway's dependencies, and its HTTP status: 200 when
/// every dependency is OK, 503 otherwise.
pub fn health_report(components: GatewayComponents) -> (r: (HealthReport, u16))
    ensures
        r.0.service@ == "gateway"@,
        r.0.uptime_seconds == 0,
        all_ok(components) ==> r.0.status == ServiceStatus::Healthy && r.1 == 200,
        !all_ok(components) ==> r.0.status == ServiceStatus::Degraded && r.1 == 503,
        r.0.components == components,
{
    let (status, code) = overall_status(&components);
    (
        HealthReport {
            service: String::from_str("gateway"),
            status,
            uptime_seconds: 0,
            components,
        },
        code,
    )
}

/// Request tracing that leaves out the health probe.
#[derive(Debug, Clone, Copy)]
pub struct HealthAwareSpan;

impl HealthAwareSpan {
    /// Whether a request for `path` is traced: every path but `/healthz`.
    pub fn traces(path: &str) -> (r: bool)
        ensures
            r == (path@ != "/healthz"@),
    {
        !str_eq(path, "/healthz")
    }
}

} // verus!
