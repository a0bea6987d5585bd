//! The outbound-connection metrics endpoint: its query limits, the time
//! window it looks back over, and how recorded events are listed.
use vstd::prelude::*;
use crate::error::{invalid_field, is_invalid_field, GatewayError};
use crate::pagination::limit_choice;
use crate::time::Timestamp;

verus! {

/// How many recent events to list: 200 by default, at most 1000.
pub fn resolve_limit(raw: Option<i64>) -> (r: Result<i64, GatewayError>)
    ensures
        match limit_choice(raw, 200, 1000) {
            Some(v) => r == Ok::<i64, GatewayError>(v),
            None => r matches Err(e) && is_invalid_field(
                e,
                "limit"@,
                "must be between 1 and 1000"@,
            ),
        },
{
    match raw {
        None => Ok(200),
        Some(value) => {
            if 1 <= value && value <= 1000 {
                Ok(value)
            } else {
                Err(invalid_field("limit", "must be between 1 and 1000"))
            }
        },
    }
}

/// The lookback window in hours: 24 by default, at most 168 (a week).
pub fn resolve_hours(raw: Option<i64>) -> (r: Result<i64, GatewayError>)
    ensures
        match limit_choice(raw, 24, 168) {
            Some(v) => r == Ok::<i64, GatewayError>(v),
            None => r matches Err(e) && is_invalid_field(e, "hours"@, "must be between 1 and 168"@),
        },
{
    match raw {
        None => Ok(24),
        Some(value) => {
            if 1 <= value && value <= 168 {
                Ok(value)
            } else {
                Err(invalid_field("hours", "must be between 1 and 168"))
            }
        },
    }
}

/// One outbound call to a downstream service, as recorded.
#[derive(Debug, Clone)]
pub struct ConnectionEvent {
    pub id: i64,
    pub service: String,
    pub endpoint: String,
    pub method: String,
    pub status: i32,
    pub latency_ms: i32,
    pub response_bytes: Option<i64>,
    pub error: Option<String>,
    pub created_at: Timestamp,
}

/// One outbound call, as the metrics endpoint lists it.
#[derive(Debug, Clone)]
pub struct RecentConnectionEvent {
    pub id: i64,
    pub service: String,
    pub endpoint: String,
    pub method: String,
    pub status: i32,
    pub latency_ms: i32,
    pub response_bytes: Option<i64>,
    pub error: Option<String>,
    pub created_at: Timestamp,
}

impl RecentConnectionEvent {
    /// The listed form of a recorded event: every field carried over.
    pub fn from_event(event: ConnectionEvent) -> (r: Self)
        ensures
            r.id == event.id,
            r.service == event.service,
            r.endpoint == event.endpoint,
            r.method == event.method,
            r.status == event.status,
            r.latency_ms == event.latency_ms,
            r.response_bytes == event.response_bytes,
            r.error == event.error,
            r.created_at == event.created_at,
    {
        RecentConnectionEvent {
            id: event.id,
            service: event.service,
            endpoint: event.endpoint,
            method: event.method,
            status: event.status,
            latency_ms: event.latency_ms,
            response_bytes: event.response_bytes,
            error: event.error,
            created_at: event.created_at,
        }
    }
}

/// Query parameters of the connection metrics endpoint.
#[derive(Debug, Clone)]
pub struct ConnectionEventsQuery {
    /// Only calls to this service, when given.
    pub service: Option<String>,
    pub limit: Option<i64>,
    pub hours: Option<i64>,
}

/// Microseconds in an hour.
pub const MICROS_PER_HOUR: i64 = 3_600_000_000i64;

/// What the endpoint reads: how many events, over how many hours, from when,
/// for which service.
#[derive(Debug, Clone)]
pub struct ConnectionQueryPlan {
    pub limit: i64,
    pub hours: i64,
    pub since: Timestamp,
    pub service: Option<String>,
}

/// The plan for a metrics request made at `now`: the limit and the window
/// checked as `resolve_limit` and `resolve_hours` do (the limit first), and
/// the window starting `hours` hours before `now`.
pub fn plan_connection_query(query: ConnectionEventsQuery, now: Timestamp) -> (r: Result<
    ConnectionQueryPlan,
    GatewayError,
>)
    requires
        now >= i64::MIN + 168 * MICROS_PER_HOUR,
    ensures
        limit_choice(query.limit, 200, 1000) is None ==> (r matches Err(e) && is_invalid_field(
            e,
            "limit"@,
            "must be between 1 and 1000"@,
        )),
        limit_choice(query.limit, 200, 1000) is Some && limit_choice(query.hours, 24, 168) is None
            ==> (r matches Err(e) && is_invalid_field(e, "hours"@, "must be between 1 and 168"@)),
        limit_choice(query.limit, 200, 1000) matches Some(l) ==> (limit_choice(query.hours, 24, 168) matches Some(h)
            ==> (r matches Ok(p) && p.limit == l && p.hours == h && p.since == now - h * MICROS_PER_HOUR
            && p.service == query.service)),
{
    let limit = match resolve_limit(query.limit) {
        Ok(l) => l,
        Err(e) => return Err(e),
    };
    let hours = match resolve_hours(query.hours) {
        Ok(h) => h,
        Err(e) => return Err(e),
    };
    let since = now - hours * MICROS_PER_HOUR;
    Ok(ConnectionQueryPlan { limit, hours, since, service: query.service })
}

} // verus!
