use rudr::instigator::{check_diff, combine_name, config_owner_reference, ComponentRecord};
use rudr::schematic::configuration::ComponentConfiguration;

#[test]
fn test_config_owner_reference() {
    let name = "configuration".to_string();
    let uid = "87707f2d-9ddc-11e9-b1c3-4ec16ac9a10f".to_string();

    config_owner_reference(name.clone(), Some(uid.clone()))
        .and_then(|owner| {
            assert_eq!(owner.name, name);
            assert_eq!(owner.uid, uid);
            Ok(owner)
        })
        .expect("expected owner reference");
    assert!(config_owner_reference(name, None).is_err());
}

fn record(version: &str, values: Option<Vec<rudr::schematic::parameter::ParameterValue>>) -> ComponentRecord {
    ComponentRecord {
        version: version.to_string(),
        config: ComponentConfiguration {
            name: "test".to_string(),
            instance_name: "test_inst".to_string(),
            parameter_values: values,
            traits: None,
            application_scopes: None,
        },
    }
}

#[test]
fn test_check_diff() {
    let new_record = record("123", None);
    let old_record = record("123", None);

    assert_eq!(check_diff(None, &new_record), true);
    assert_eq!(check_diff(Some(old_record.clone()), &new_record), false);

    let new_record2 = record("1234", None);
    assert_eq!(check_diff(Some(new_record2), &old_record), true);
    let new_record3 = record("1234", Some(vec![]));
    assert_eq!(check_diff(Some(new_record3), &old_record), true);
}

#[test]
fn combine_name_joins_with_a_dash() {
    assert_eq!("comp-inst", combine_name("comp".into(), "inst".into()));
}

use rudr::instigator::{
    already_exists, component_instance_object, deletion_result, get_object_ref, instance_owner_reference,
    load_scope_by_type, load_scopes, owner_lookup, owner_read_failed, retry_on, OwnerLookup, ScopeError,
};
use rudr::json::JsonValue;
use rudr::lifecycle::Phase;
use rudr::schematic::configuration::{ApplicationConfiguration, ScopeBinding};
use rudr::schematic::parameter::ParameterValue;
use rudr::schematic::scopes::OAMScope;
use rudr::schematic::variable::Variable;

fn obj(entries: Vec<(&str, JsonValue)>) -> JsonValue {
    JsonValue::Object(entries.into_iter().map(|(k, v)| (k.to_string(), v)).collect())
}

#[test]
fn component_instance_objects_are_owned_by_the_configuration() {
    let owner = config_owner_reference("conf".to_string(), Some("uid-9".to_string())).unwrap();
    let v = component_instance_object("web".to_string(), "web-1".to_string(), &owner);
    let expected = obj(vec![
        ("apiVersion", JsonValue::from_str("core.oam.dev/v1alpha1")),
        ("kind", JsonValue::from_str("ComponentInstance")),
        (
            "metadata",
            obj(vec![
                ("name", JsonValue::from_str("web-web-1")),
                (
                    "ownerReferences",
                    JsonValue::Array(vec![obj(vec![
                        ("apiVersion", JsonValue::from_str("core.oam.dev/v1alpha1")),
                        ("blockOwnerDeletion", JsonValue::Bool(true)),
                        ("controller", JsonValue::Bool(true)),
                        ("kind", JsonValue::from_str("ApplicationConfiguration")),
                        ("name", JsonValue::from_str("conf")),
                        ("uid", JsonValue::from_str("uid-9")),
                    ])]),
                ),
            ]),
        ),
        ("spec", obj(vec![("traits", JsonValue::Array(vec![]))])),
    ]);
    assert_eq!(expected, v);
    assert!(already_exists(&Some("AlreadyExists".to_string())));
    assert!(!already_exists(&Some("Conflict".to_string())));
    assert!(!already_exists(&None));
}

#[test]
fn component_instance_owners_need_a_uid() {
    assert_eq!("UID was not set on component instance", instance_owner_reference("x".into(), None).unwrap_err().to_string());
    let owners = instance_owner_reference("web-web-1".into(), Some("u".into())).unwrap();
    assert_eq!(1, owners.len());
    assert_eq!("ComponentInstance", owners[0].kind);
    assert_eq!("web-web-1", owners[0].name);
    assert_eq!("u", owners[0].uid);
    assert_eq!(Some(true), owners[0].controller);
}

#[test]
fn owners_are_found_by_phase() {
    assert_eq!(OwnerLookup::Create, owner_lookup(Phase::Add));
    assert_eq!(OwnerLookup::ReadOrCreate, owner_lookup(Phase::Modify));
    assert_eq!(OwnerLookup::NoOwner, owner_lookup(Phase::Delete));
    assert!(owner_read_failed(Phase::Modify, &"inst".to_string(), &"componentinstances NotFound".to_string()).is_ok());
    assert_eq!(
        Err("Modify on inst: forbidden".to_string()),
        owner_read_failed(Phase::Modify, &"inst".to_string(), &"forbidden".to_string())
    );
    assert!(deletion_result(None).is_ok());
    assert!(deletion_result(Some("x NotFound".into())).is_ok());
    assert_eq!(Err("denied".to_string()), deletion_result(Some("denied".into())));
    assert!(retry_on(&Some("Conflict".to_string())));
    assert!(!retry_on(&None));
}

#[test]
fn object_refs_name_the_configuration() {
    let r = get_object_ref(Some("core.oam.dev/v1alpha1".into()), None, "conf".into(), Some("ns".into()), None, None);
    assert_eq!(Some("conf".to_string()), r.name);
    assert_eq!(Some("ns".to_string()), r.namespace);
    assert!(r.field_path.is_none());
}

fn value(name: &str, v: &str) -> ParameterValue {
    ParameterValue { name: name.to_string(), value: Some(JsonValue::from_str(v)), from_param: None }
}

#[test]
fn scopes_load_by_type_with_variables() {
    let spec = ApplicationConfiguration {
        variables: Some(vec![Variable { name: "net".into(), value: JsonValue::from_str("vpc-1") }]),
        scopes: Some(vec![ScopeBinding {
            name: "n".into(),
            scope_type: "core.hydra.io/v1alpha1.NetworkScope".into(),
            parameter_values: Some(vec![value("network-id", "[fromVariable(net)]"), value("subnet-id", "s1")]),
        }]),
        components: None,
    };
    let vars = vec![Variable { name: "net".into(), value: JsonValue::from_str("vpc-1") }];
    let scopes = load_scopes(&"ns".to_string(), &"app".to_string(), &spec, &vars).expect("scopes");
    assert_eq!(1, scopes.len());
    match &scopes[0] {
        OAMScope::Network(n) => {
            assert_eq!("vpc-1", n.network_id);
            assert_eq!("s1", n.subnet_id);
            assert_eq!("app", n.name);
        },
        _ => panic!("a network scope"),
    }
    let err = load_scope_by_type(&"ns".to_string(), &"app".to_string(), "core.hydra.io/v1alpha1.Other", &vec![]).err().expect("unknown");
    assert_eq!("unknown scope app type core.hydra.io/v1alpha1.Other", err.to_string());
    let err = load_scope_by_type(&"ns".to_string(), &"app".to_string(), "core.hydra.io/v1alpha1.HealthScope", &vec![]).err().expect("missing");
    assert!(matches!(err, ScopeError::Missing(_)));
}

use rudr::instigator::{component_event_info, next_status, phase_steps, unknown_scope_phase, WorkloadOp};
use rudr::schematic::HydraStatus;

#[test]
fn phases_run_their_steps() {
    let add = phase_steps(Phase::Add).expect("add steps");
    assert!(add.validate);
    assert_eq!(Phase::PreAdd, add.traits_before);
    assert_eq!(Some(WorkloadOp::Add), add.workload);
    assert_eq!(Some(Phase::Add), add.traits_after);
    assert_eq!(Some("created".to_string()), add.event_action);
    let modify = phase_steps(Phase::Modify).expect("modify steps");
    assert_eq!(Some(WorkloadOp::Modify), modify.workload);
    assert_eq!(Some("updated".to_string()), modify.event_action);
    let delete = phase_steps(Phase::Delete).expect("delete steps");
    assert_eq!(Phase::PreDelete, delete.traits_before);
    assert!(delete.workload.is_none());
    assert!(phase_steps(Phase::PreAdd).is_none());
    assert_eq!("unknown phase for scopes PreAdd on conf", unknown_scope_phase(Phase::PreAdd, &"conf".to_string()));
    let info = component_event_info(&"created".to_string(), &"web".to_string());
    assert_eq!("component web created", info.message);
    assert_eq!("", info.reason);
}

#[test]
fn statuses_take_the_phase() {
    let fresh = next_status(None, Phase::Add);
    assert_eq!(Some("Add".to_string()), fresh.phase);
    assert!(fresh.components.is_none());
    let mut comps = rudr::strmap::StrMap::new();
    comps.insert("web".to_string(), rudr::strmap::StrMap::new());
    let kept = next_status(Some(HydraStatus::new(Some("synced".into()), Some(comps))), Phase::Modify);
    assert_eq!(Some("Modify".to_string()), kept.phase);
    assert_eq!(1, kept.components.expect("components").len());
}

fn float_value(text: &str) -> Option<Vec<ParameterValue>> {
    Some(vec![ParameterValue {
        name: "ratio".to_string(),
        value: Some(JsonValue::Number(rudr::json::JsonNumber::Float(text.to_string()))),
        from_param: None,
    }])
}

#[test]
fn records_compare_numbers_as_numbers() {
    assert!(!check_diff(Some(record("1", float_value("-0.0"))), &record("1", float_value("0.0"))));
    assert!(!check_diff(Some(record("1", float_value("0.0"))), &record("1", float_value("-0.0"))));
    assert!(!check_diff(Some(record("1", float_value("2.5"))), &record("1", float_value("2.5"))));
    assert!(check_diff(Some(record("1", float_value("2.5"))), &record("1", float_value("-2.5"))));
    assert!(check_diff(Some(record("1", float_value("0.0"))), &record("1", float_value("1.0"))));
}
