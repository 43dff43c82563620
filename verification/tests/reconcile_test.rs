use rudr::instigator::records::{annotations_after, records_to_json};
use rudr::instigator::{
    component_scopes, component_sync_status, health_state, leftover_steps, reconcile_start, ComponentRecord, ComponentStep, ReconcilePlan,
    ReconcileStart, RecordAnnotation, ScopeAction, SyncPlan,
};
use rudr::json::JsonValue;
use rudr::lifecycle::Phase;
use rudr::schematic::configuration::ComponentConfiguration;
use rudr::schematic::parameter::ParameterValue;
use rudr::strmap::StrMap;

fn config(name: &str, instance: &str) -> ComponentConfiguration {
    ComponentConfiguration {
        name: name.to_string(),
        instance_name: instance.to_string(),
        parameter_values: None,
        traits: None,
        application_scopes: None,
    }
}

#[test]
fn reconciliations_need_a_uid_first() {
    let err = reconcile_start("app".to_string(), None, false, Phase::Add).expect_err("no uid");
    assert_eq!("Mysteriously, no UID was created. Ancient version of Kubernetes?", err.to_string());
    assert!(reconcile_start("app".to_string(), None, true, Phase::Add).is_err());
    let (owner, start) = reconcile_start("app".to_string(), Some("u-1".to_string()), true, Phase::Modify).expect("a uid");
    assert_eq!("u-1", owner.uid);
    assert_eq!("app", owner.name);
    assert_eq!(ReconcileStart::Scopes(Some(ScopeAction::Modify)), start);
    let (_, start) = reconcile_start("app".to_string(), Some("u-1".to_string()), true, Phase::PreAdd).expect("a uid");
    assert_eq!(ReconcileStart::Scopes(None), start);
    let (_, start) = reconcile_start("app".to_string(), Some("u-1".to_string()), false, Phase::Add).expect("a uid");
    assert_eq!(ReconcileStart::Components, start);
}

#[test]
fn reconciliations_record_their_components() {
    let mut last: RecordAnnotation = StrMap::new();
    last.insert("web".to_string(), ComponentRecord { config: config("web-comp", "web"), version: "1".to_string() });
    last.insert("old".to_string(), ComponentRecord { config: config("old-comp", "old"), version: "1".to_string() });
    let mut plan = ReconcilePlan::start(Phase::Add, last);
    assert_eq!(ComponentStep::Unchanged, plan.component(&config("web-comp", "web"), &"1".to_string()));
    assert_eq!(ComponentStep::Run(Phase::Add), plan.component(&config("db-comp", "db"), &"7".to_string()));
    let leftover = plan.finish();
    assert_eq!(1, leftover.len());
    assert_eq!("old", leftover[0].config.instance_name);
    assert_eq!(Some(Phase::Add), plan.status_phase());

    let mut annotations: StrMap<String> = StrMap::new();
    annotations.insert("owner".to_string(), "team-a".to_string());
    let after = annotations_after(annotations, &plan.new_components);
    assert_eq!(Some(&"team-a".to_string()), after.get("owner"));
    let text = after.get("component_record_annotation").expect("the records");
    let parsed: serde_json::Value = serde_json::from_str(text).expect("JSON");
    assert_eq!(Some("7"), parsed["db"]["version"].as_str());
    assert_eq!(Some("db"), parsed["db"]["config"]["instanceName"].as_str());
    assert_eq!(Some("web-comp"), parsed["web"]["config"]["name"].as_str());
    assert!(parsed["web"]["config"]["parameterValues"].is_null());
    assert!(parsed.get("old").is_none());
}

#[test]
fn records_write_their_parameter_values() {
    let mut c = config("web-comp", "web");
    c.parameter_values = Some(vec![ParameterValue {
        name: "port".to_string(),
        value: Some(JsonValue::from_i64(80)),
        from_param: None,
    }]);
    c.application_scopes = Some(vec!["health".to_string()]);
    let mut records: RecordAnnotation = StrMap::new();
    records.insert("web".to_string(), ComponentRecord { config: c, version: "3".to_string() });
    let text = records_to_json(&records).to_json_string();
    assert_eq!(
        r#"{"web":{"config":{"name":"web-comp","instanceName":"web","parameterValues":[{"name":"port","value":80,"fromParam":null}],"traits":null,"applicationScopes":["health"]},"version":"3"}}"#,
        text
    );
}

fn map(entries: &[(&str, &str)]) -> StrMap<String> {
    let mut m = StrMap::new();
    for (k, v) in entries {
        m.insert(k.to_string(), v.to_string());
    }
    m
}

#[test]
fn synced_statuses_put_traits_over_workloads() {
    let workload = map(&[("deployment/web", "running"), ("service/web", "created")]);
    assert_eq!("healthy", health_state(&workload));
    assert_eq!("unhealthy", health_state(&map(&[("deployment/web", "updating")])));
    let traits = map(&[("ingress/web", "created"), ("service/web", "shadowed")]);
    let status = component_sync_status(workload, Some(traits));
    assert_eq!(Some(&"shadowed".to_string()), status.get("service/web"));
    assert_eq!(Some(&"created".to_string()), status.get("ingress/web"));
    assert_eq!(3, status.len());

    let mut last: RecordAnnotation = StrMap::new();
    last.insert("web".to_string(), ComponentRecord { config: config("web-comp", "web"), version: "1".to_string() });
    let mut plan = SyncPlan::start(last);
    assert!(plan.component(&config("web-comp", "web"), &"1".to_string()));
    plan.record_status("web-comp".to_string(), status);
    let synced = plan.synced_status().expect("a status to write");
    assert_eq!(Some("synced".to_string()), synced.phase);
    let components = synced.components.expect("components");
    assert_eq!(Some(&"running".to_string()), components.get("web-comp").expect("web-comp").get("deployment/web"));

    let mut last: RecordAnnotation = StrMap::new();
    last.insert("web".to_string(), ComponentRecord { config: config("web-comp", "web"), version: "1".to_string() });
    let mut plan = SyncPlan::start(last);
    assert!(!plan.component(&config("web-comp", "web"), &"2".to_string()));
    assert!(plan.synced_status().is_none());
}

#[test]
fn leftover_components_are_deleted_in_steps() {
    let mut c = config("old-comp", "old");
    c.application_scopes = Some(vec!["health".to_string(), "net".to_string()]);
    assert_eq!(vec!["health".to_string(), "net".to_string()], component_scopes(&c));
    assert!(component_scopes(&config("a", "b")).is_empty());
    let steps = leftover_steps(&ComponentRecord { config: c, version: "1".to_string() });
    assert_eq!(Phase::PreDelete, steps.traits_phase);
    assert_eq!("old-comp-old", steps.delete_instance);
    assert_eq!(vec!["health".to_string(), "net".to_string()], steps.leave_scopes);
    assert_eq!("deleted", steps.event.action);
    assert_eq!("component old-comp deleted", steps.event.message);
    assert_eq!("", steps.event.reason);
}
