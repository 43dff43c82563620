use rudr::healthscope::{
    aggregate_plan, component_health, probed_status, probed_status_now, time_to_aggregate, time_to_aggregate_after, AggregatePlan,
    AggregateStatus, ScopeComponent,
};
use rudr::instigator::{event_response, failure_info, EventResponse, WatchEvent};
use rudr::kube_event::{Event, Info, ObjectReference, Type};
use rudr::schematic::scopes::health::HealthScope;

#[test]
fn test_make_event() {
    let now = chrono::Utc::now();
    let nanos = now.timestamp_nanos_opt().expect("a time in range");
    let ev = Event::make_event(
        nanos,
        "default".to_string(),
        Type::Normal,
        Info { action: "ac".to_string(), message: "ms".to_string(), reason: "re".to_string() },
        ObjectReference {
            api_version: Some("core.oam.dev/v1alpha1".to_string()),
            kind: None,
            name: Some("test".to_string()),
            field_path: None,
            namespace: None,
            resource_version: None,
            uid: None,
        },
        None,
        None,
    );
    assert_eq!(ev.count, 1);
    assert_eq!(ev.name, format!("test.{:x}", nanos));
    assert_eq!(ev.action, Some("ac".to_string()))
}

#[test]
fn event_names_write_negative_times_as_unsigned_hex() {
    let ev = Event::make_event(
        -1,
        "ns".to_string(),
        Type::Warning,
        Info { action: "a".to_string(), message: "m".to_string(), reason: "r".to_string() },
        ObjectReference {
            api_version: None,
            kind: None,
            name: Some("obj".to_string()),
            field_path: None,
            namespace: None,
            resource_version: None,
            uid: None,
        },
        Some("oam.dev/rudr".to_string()),
        None,
    );
    assert_eq!("obj.ffffffffffffffff", ev.name);
    assert_eq!("Warning", ev.type_);
    assert_eq!("oam.dev/rudr", ev.reporting_component);
    assert_eq!("", ev.reporting_instance);
    assert_eq!(Some(-1), ev.first_timestamp);
}

fn stamped(t: Option<String>) -> Option<AggregateStatus> {
    Some(AggregateStatus { last_aggregate_timestamp: t, ..Default::default() })
}

#[test]
fn test_time_to_action() {
    assert_eq!(time_to_aggregate(&None, 10), true);
    let status = stamped(None);
    assert_eq!(time_to_aggregate(&status, 10), true);
    let status = stamped(Some(
        chrono::Utc::now().checked_sub_signed(chrono::Duration::seconds(11)).unwrap().to_rfc3339(),
    ));
    assert_eq!(time_to_aggregate(&status, 10), true);
    assert_eq!(time_to_aggregate(&status, 15), false);
    assert_eq!(time_to_aggregate(&status, 0), true);
}

#[test]
fn aggregation_is_due_on_unreadable_times() {
    let status = stamped(Some("yesterday".to_string()));
    assert!(time_to_aggregate(&status, 100));
    assert!(time_to_aggregate_after(&status, 100, None));
    assert!(!time_to_aggregate_after(&status, 100, Some(99)));
    assert!(time_to_aggregate_after(&status, 100, Some(100)));
}

fn scope(method: &str, endpoint: &str) -> HealthScope {
    HealthScope {
        probe_method: method.to_string(),
        probe_endpoint: endpoint.to_string(),
        probe_timeout: None,
        probe_interval: None,
        failure_rate_threshold: None,
        healthy_rate_threshold: None,
        health_threshold_percentage: None,
        required_healthy_components: None,
    }
}

#[test]
fn aggregate_plans_probe_only_known_methods() {
    assert_eq!(AggregatePlan::Skip, aggregate_plan(&scope("kube-get", ".status"), false));
    assert_eq!(AggregatePlan::Probe, aggregate_plan(&scope("kube-get", ".status"), true));
    assert_eq!(
        AggregatePlan::UnknownProbe("unknown probe-method http and probe_endpoint /h".to_string()),
        aggregate_plan(&scope("http", "/h"), true)
    );
}

#[test]
fn probes_record_each_component_health() {
    assert_eq!("healthy", component_health(Ok(Some("healthy".to_string()))));
    assert_eq!("unhealthy", component_health(Ok(None)));
    assert_eq!("unhealthy", component_health(Err("gone".to_string())));
    let status = Some(AggregateStatus {
        components: Some(vec![
            ScopeComponent { name: "a".into(), instance_name: "1".into(), status: None },
            ScopeComponent { name: "b".into(), instance_name: "2".into(), status: Some("old".into()) },
        ]),
        last_aggregate_timestamp: None,
    });
    let next = probed_status(&status, &vec!["healthy".to_string(), "unhealthy".to_string()], "now".to_string());
    let comps = next.components.expect("components");
    assert_eq!(Some("healthy".to_string()), comps[0].status);
    assert_eq!(Some("unhealthy".to_string()), comps[1].status);
    assert_eq!(Some("now".to_string()), next.last_aggregate_timestamp);
}

#[test]
fn watch_events_choose_the_response() {
    assert_eq!(EventResponse::Add, event_response(WatchEvent::Added));
    assert_eq!(EventResponse::Modify, event_response(WatchEvent::Modified));
    assert_eq!(EventResponse::Delete, event_response(WatchEvent::Deleted));
    assert_eq!(EventResponse::Ignore, event_response(WatchEvent::Error("AlreadyExists".into())));
    assert_eq!(EventResponse::Fail("Forbidden".into()), event_response(WatchEvent::Error("Forbidden".into())));
    let info = failure_info(true, &"conf".to_string(), "broken".to_string());
    assert_eq!("create", info.action);
    assert_eq!("create config conf error", info.message);
    assert_eq!("broken", info.reason);
    let info = failure_info(false, &"conf".to_string(), "broken".to_string());
    assert_eq!("update config conf error", info.message);
}

#[test]
fn a_fresh_probe_is_not_due_again_at_once() {
    let status = Some(AggregateStatus {
        components: Some(vec![ScopeComponent { name: "a".into(), instance_name: "1".into(), status: None }]),
        last_aggregate_timestamp: Some("1996-12-19T16:39:57-08:00".into()),
    });
    assert!(time_to_aggregate(&status, 10));
    let next = probed_status_now(&status, &vec!["healthy".to_string()]);
    let stamp = next.last_aggregate_timestamp.clone().expect("a timestamp");
    assert_ne!("1996-12-19T16:39:57-08:00", stamp);
    assert_eq!(Some("healthy".to_string()), next.components.as_ref().expect("components")[0].status);
    assert!(!time_to_aggregate(&Some(next), 3600));
}

#[test]
fn events_now_carry_the_emitter_and_the_clock() {
    let before = chrono::Utc::now().timestamp_nanos_opt().expect("a time in range");
    let mut emitter = Event::new("apps".to_string());
    emitter.reporting_instance = Some("rudr-0".to_string());
    let ev = emitter
        .event_now(
            Type::Normal,
            Info { action: "created".to_string(), message: "component web created".to_string(), reason: "".to_string() },
            ObjectReference {
                api_version: None,
                kind: Some("ApplicationConfiguration".to_string()),
                name: Some("first-app".to_string()),
                field_path: None,
                namespace: None,
                resource_version: None,
                uid: None,
            },
        )
        .expect("an event");
    let after = chrono::Utc::now().timestamp_nanos_opt().expect("a time in range");
    let t = ev.first_timestamp.expect("a time");
    assert!(before <= t && t <= after);
    assert_eq!(Some(t), ev.last_timestamp);
    assert_eq!(format!("first-app.{:x}", t), ev.name);
    assert_eq!(Some("apps".to_string()), ev.namespace);
    assert_eq!("rudr-0", ev.reporting_instance);
    assert_eq!("", ev.reporting_component);
}
