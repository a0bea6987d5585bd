use gateway::health::{
    component_status, health_report, latency_ms, overall_status, GatewayComponents, HealthAwareSpan,
    ServiceStatus,
};

fn components(all_ok: bool) -> GatewayComponents {
    GatewayComponents {
        database: component_status(Ok(()), 1, "connected"),
        mir_queue: component_status(Ok(()), 1, "connected"),
        rdf_queue: component_status(Ok(()), 1, "connected"),
        storage: component_status(if all_ok { Ok(()) } else { Err("down".to_string()) }, 3, "reachable"),
        inferencer: component_status(Ok(()), 1, "reachable"),
        vector_api: component_status(Ok(()), 1, "reachable"),
    }
}

#[test]
fn latency_rounds_up_to_whole_milliseconds() {
    assert_eq!(latency_ms(0), 1);
    assert_eq!(latency_ms(1), 1);
    assert_eq!(latency_ms(1000), 1);
    assert_eq!(latency_ms(1001), 2);
    assert_eq!(latency_ms(2_500_000), 2500);
}

#[test]
fn one_degraded_dependency_degrades_the_gateway() {
    assert_eq!(overall_status(&components(true)), (ServiceStatus::Healthy, 200));
    assert_eq!(overall_status(&components(false)), (ServiceStatus::Degraded, 503));
    let (report, code) = health_report(components(false));
    assert_eq!(code, 503);
    assert_eq!(report.service, "gateway");
    assert_eq!(report.uptime_seconds, 0);
    assert_eq!(report.components.storage.message.as_deref(), Some("down"));
    assert_eq!(report.components.storage.detail.as_deref(), Some("reachable"));
}

#[test]
fn health_probe_is_not_traced() {
    assert!(!HealthAwareSpan::traces("/healthz"));
    assert!(HealthAwareSpan::traces("/healthz/"));
    assert!(HealthAwareSpan::traces("/v1/contexts"));
}
