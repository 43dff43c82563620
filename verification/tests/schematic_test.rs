use rudr::schematic::GroupVersionKind;
use rudr::schematic::traits::util::trait_labels;
use std::str::FromStr;

#[test]
fn component_test_test_group_version_kind() {
    let gvk = GroupVersionKind::from_str("core.hydra.io/v1alpha1.Singleton");
    assert!(gvk.is_ok());
    let o = gvk.unwrap();
    assert_eq!("core.hydra.io", o.group);
    assert_eq!("v1alpha1", o.version);
    assert_eq!("Singleton", o.kind);

    let failed_gvp = GroupVersionKind::from_str("not valid");
    assert!(failed_gvp.is_err());
}

#[test]
fn tests_test_group_version_kind() {
    let gvk = GroupVersionKind::from_str("core.hydra.io/v1alpha1.Singleton");
    assert!(gvk.is_ok());
    let o = gvk.unwrap();
    assert_eq!("core.hydra.io", o.group);
    assert_eq!("v1alpha1", o.version);
    assert_eq!("Singleton", o.kind);

    let failed_gvp = GroupVersionKind::from_str("not valid");
    assert!(failed_gvp.is_err());
}

#[test]
fn group_version_kind_errors() {
    assert_eq!(
        "missing version and kind",
        GroupVersionKind::parse("nothing").unwrap_err().to_string()
    );
    assert_eq!(
        "missing kind",
        GroupVersionKind::parse("group/version").unwrap_err().to_string()
    );
    let gvk = GroupVersionKind::parse("a/b/c.d.e").unwrap();
    assert_eq!("a", gvk.group);
    assert_eq!("b/c", gvk.version);
    assert_eq!("d.e", gvk.kind);
}

#[test]
fn util_test_trait_labels() {
    let labels = trait_labels("name".to_string(), "inst".to_string());
    assert_eq!(
        "trait".to_string(),
        *labels.get("oam.dev/role").expect("role must be a string")
    );
    assert_eq!(
        "name".to_string(),
        *labels.get("app.kubernetes.io/name").expect("name must be a string")
    );
    assert_eq!(
        "inst".to_string(),
        *labels.get("instance-name").expect("instance-name must be a string")
    );
}

#[test]
fn util_test_test_trait_labels() {
    // Traits are labelled with their role, under the OAM role label.
    let labels = trait_labels("name".to_string(), "inst".to_string());
    assert_eq!("trait".to_string(), *labels.get("oam.dev/role").expect("must be a string"));
}
