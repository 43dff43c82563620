use rudr::json::{JsonNumber, JsonValue};
use rudr::schematic::configuration::ComponentConfiguration;
use rudr::schematic::parameter::ParameterValue;
use rudr::schematic::scopes::health::{ComponentInfo, HealthStatus};
use rudr::instigator::ScopeAction;
use rudr::schematic::scopes::{Health, Network, OAMScope, ScopeStep, HEALTH_SCOPE, NETWORK_SCOPE};

fn value(name: &str, v: JsonValue) -> ParameterValue {
    ParameterValue { name: name.to_string(), value: Some(v), from_param: None }
}

#[test]
fn test_create_network() {
    let mut params = vec![];
    params.insert(0, value("network-id", JsonValue::from_str("nid")));
    params.insert(1, value("subnet-id", JsonValue::from_str("sid")));
    let net = Network::from_params("test-net".to_string(), &params).unwrap();
    assert_eq!(false, net.allow_overlap());
    assert_eq!(NETWORK_SCOPE.to_string(), net.scope_type());
    assert_eq!("nid".to_string(), net.network_id);
    assert_eq!("sid".to_string(), net.subnet_id);
}

#[test]
fn network_needs_its_ids() {
    let params = vec![value("network-id", JsonValue::from_str("nid"))];
    let err = Network::from_params("test-net".to_string(), &params).expect_err("subnet missing");
    assert_eq!("subnet-id is not exist", err.to_string());
    let err = Network::from_params("test-net".to_string(), &vec![]).expect_err("network missing");
    assert_eq!("network-id is not exist", err.to_string());
}

fn health_params() -> Vec<ParameterValue> {
    let mut params = vec![];
    params.insert(params.len(), value("probe-method", JsonValue::from_str("httpGet")));
    params.insert(params.len(), value("probe-endpoint", JsonValue::from_str("/v1/health")));
    params.insert(params.len(), value("probe-timeout", JsonValue::from_i64(10)));
    params.insert(params.len(), value("failure-rate-threshold", JsonValue::from_i64(80)));
    let comps = vec![JsonValue::from_str("comp1"), JsonValue::from_str("comp2")];
    params.insert(params.len(), value("required-healthy-components", JsonValue::Array(comps)));
    params
}

#[test]
fn test_create_health() {
    let net = Health::from_params("test-health".to_string(), "namespace".to_string(), &health_params()).unwrap();
    assert_eq!(true, net.allow_overlap());
    assert_eq!(HEALTH_SCOPE.to_string(), net.scope_type());
    assert_eq!("test-health".to_string(), net.name);
    assert_eq!("httpGet".to_string(), net.probe_method);
    assert_eq!("/v1/health".to_string(), net.probe_endpoint);
    assert_eq!(Some(10), net.probe_timeout);
    // The threshold is kept as the JSON number it was given as: 80.
    assert_eq!(Some(JsonNumber::PosInt(80)), net.failure_rate_threshold);
    let mut comps = vec![];
    comps.insert(0, "comp1".to_string());
    comps.insert(1, "comp2".to_string());
    assert_eq!(Some(comps), net.required_healthy_components);
}

#[test]
fn health_required_components_must_all_be_strings() {
    let mut params = health_params();
    params.pop();
    params.push(value("required-healthy-components", JsonValue::Array(vec![JsonValue::from_str("a"), JsonValue::from_i64(1)])));
    let h = Health::from_params("h".to_string(), "ns".to_string(), &params).unwrap();
    assert_eq!(None, h.required_healthy_components);
    let err = Health::from_params("h".to_string(), "ns".to_string(), &vec![]).expect_err("method missing");
    assert_eq!("probe-method is not exist", err.to_string());
}

fn config(name: &str, instance: &str) -> ComponentConfiguration {
    ComponentConfiguration {
        name: name.into(),
        instance_name: instance.into(),
        parameter_values: None,
        traits: None,
        application_scopes: None,
    }
}

fn info(name: &str, instance: &str) -> ComponentInfo {
    ComponentInfo { name: name.into(), instance_name: instance.into() }
}

#[test]
fn health_scope_adds_a_component_once_and_removes_it() {
    let h = Health::from_params("h".to_string(), "ns".to_string(), &health_params()).unwrap();
    let status = Some(HealthStatus { aggregated: None, components: Some(vec![info("a", "1"), info("b", "2"), info("a", "1")]) });
    let added = h.added_status(&config("a", "1"), &status);
    assert_eq!(Some(vec![info("b", "2"), info("a", "1")]), added.components);
    let added_again = h.added_status(&config("a", "1"), &Some(added));
    assert_eq!(Some(vec![info("b", "2"), info("a", "1")]), added_again.components);
    let removed = h.removed_status(&config("a", "1"), &Some(added_again));
    assert_eq!(Some(vec![info("b", "2")]), removed.components);
    let from_nothing = h.added_status(&config("c", "3"), &None);
    assert_eq!(Some(vec![info("c", "3")]), from_nothing.components);
    assert!(from_nothing.aggregated.is_none());
}

#[test]
fn health_scope_object_is_owned_by_the_configuration() {
    let h = Health::from_params("h".to_string(), "ns".to_string(), &health_params()).unwrap();
    let owner = rudr::instigator::config_owner_reference("conf".to_string(), Some("uid-1".to_string())).unwrap();
    let obj = h.to_scope_object(&owner);
    assert_eq!("HealthScope", obj.kind);
    assert_eq!("core.hydra.io/v1alpha1", obj.api_version);
    assert_eq!("h", obj.name);
    assert_eq!(1, obj.owner_references.len());
    assert!(obj.owner_references[0].controller);
    assert_eq!("uid-1", obj.owner_references[0].uid);
    assert!(Health::create_succeeded(None));
    assert!(Health::create_succeeded(Some(Some("AlreadyExists".to_string()))));
    assert!(!Health::create_succeeded(Some(Some("Forbidden".to_string()))));
    assert!(!Health::create_succeeded(Some(None)));
}

#[test]
fn scopes_report_type_and_overlap() {
    let h = Health::from_params("h".to_string(), "ns".to_string(), &health_params()).unwrap();
    let scope = OAMScope::Health(h);
    assert!(scope.allow_overlap());
    assert_eq!(HEALTH_SCOPE, scope.scope_type());
}

#[test]
fn scopes_act_on_their_configuration() {
    let h = OAMScope::Health(Health::from_params("h".to_string(), "ns".to_string(), &health_params()).unwrap());
    assert_eq!(ScopeStep::CreateObject, h.step(ScopeAction::Create));
    assert_eq!(ScopeStep::Unsupported("health scope modify not implemented".to_string()), h.step(ScopeAction::Modify));
    assert_eq!(ScopeStep::Nothing, h.step(ScopeAction::Delete));
    let params = vec![value("network-id", JsonValue::from_str("nid")), value("subnet-id", JsonValue::from_str("sid"))];
    let n = OAMScope::Network(Network::from_params("n".to_string(), &params).unwrap());
    assert_eq!(ScopeStep::Unsupported("network scope create not implemented".to_string()), n.step(ScopeAction::Create));
    assert_eq!(ScopeStep::Unsupported("network scope modify not implemented".to_string()), n.step(ScopeAction::Modify));
    assert_eq!(ScopeStep::Unsupported("network scope delete not implemented".to_string()), n.step(ScopeAction::Delete));
}

#[test]
fn removing_a_component_undoes_adding_it() {
    let h = Health::from_params("h".to_string(), "ns".to_string(), &health_params()).unwrap();
    let before = vec![info("b", "2"), info("c", "3")];
    let status = Some(HealthStatus { aggregated: None, components: Some(before.clone()) });
    let added = h.added_status(&config("a", "1"), &status);
    let removed = h.removed_status(&config("a", "1"), &Some(added));
    assert_eq!(Some(before), removed.components);
    assert!(removed.aggregated.is_none());
}
