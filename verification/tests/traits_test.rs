use rudr::json::JsonValue;
use rudr::schematic::component::{AccessMode, Component, Container, Disk, Resources, SharingPolicy, Volume};
use rudr::schematic::configuration::ComponentConfiguration;
use rudr::schematic::traits::manual_scaler::{ScaleStep, ScaleTarget};
use rudr::lifecycle::Phase;
use rudr::schematic::traits::{Autoscaler, Ingress, ManualScaler, OAMTrait, TraitAction, TraitBinding, VolumeMounter};
use rudr::strmap::StrMap;
use rudr::trait_manager::{merge_status, TraitManager};
use rudr::workload_type::workload_builder::{Deployment, DeploymentSpec, Job, JobSpec};
use rudr::workload_type::ParamMap;

const SERVER_NAME: &str = "core.oam.dev/v1alpha1.Server";
const SINGLETON_SERVER_NAME: &str = "core.oam.dev/v1alpha1.SingletonServer";
const SINGLETON_TASK_NAME: &str = "core.oam.dev/v1alpha1.SingletonTask";
const TASK_NAME: &str = "core.oam.dev/v1alpha1.Task";

fn object(entries: Vec<(&str, JsonValue)>) -> JsonValue {
    JsonValue::Object(entries.into_iter().map(|(k, v)| (k.to_string(), v)).collect())
}

fn num(n: i64) -> JsonValue {
    JsonValue::from_i64(n)
}

fn text(s: &str) -> JsonValue {
    JsonValue::from_str(s)
}

fn float(s: &str) -> JsonValue {
    JsonValue::Number(rudr::json::JsonNumber::Float(s.to_string()))
}

#[test]
fn test_autoscaler_defaults() {
    let autoscaler = Autoscaler {
        name: "release".into(),
        instance_name: "instance".into(),
        component_name: "component".into(),
        cpu: None,
        memory: None,
        minimum: None,
        maximum: None,
        owner_ref: None,
    };
    let kauto = autoscaler.to_horizontal_pod_autoscaler();
    assert_eq!("instance-trait-autoscaler".to_string(), kauto.metadata.name);
    let spec = kauto.spec.expect("spec");
    assert_eq!(10, spec.max_replicas);
}

fn params(entries: Vec<(&str, i64)>) -> ParamMap {
    let mut params: ParamMap = StrMap::new();
    for (k, v) in entries {
        params.insert(k.into(), num(v));
    }
    params
}

#[test]
fn test_autoscaler_cpu() {
    let params = params(vec![("cpu", 42), ("minimum", 6), ("maximum", 7)]);
    let autoscaler = Autoscaler::from_params("release".into(), "instance".into(), "component".into(), &params, None);
    let kauto = autoscaler.to_horizontal_pod_autoscaler();
    assert_eq!("instance-trait-autoscaler".to_string(), kauto.metadata.name);
    let spec = kauto.spec.expect("spec");
    assert_eq!(7, spec.max_replicas);
    assert_eq!(Some(6), spec.min_replicas);
    // cpu is added first so index for cpu is 0
    let metrics = spec.metrics.expect("metrics");
    assert_eq!(Some(42), metrics[0].resource.as_ref().expect("a resource").target_average_utilization);
}

#[test]
fn test_autoscaler_memory() {
    let params = params(vec![("memory", 50), ("minimum", 6), ("maximum", 7)]);
    let autoscaler = Autoscaler::from_params("release".into(), "instance".into(), "component".into(), &params, None);
    let kauto = autoscaler.to_horizontal_pod_autoscaler();
    assert_eq!("instance-trait-autoscaler".to_string(), kauto.metadata.name);
    let spec = kauto.spec.expect("spec");
    assert_eq!(7, spec.max_replicas);
    assert_eq!(Some(6), spec.min_replicas);
    let metrics = spec.metrics.expect("metrics");
    assert_eq!(Some(50), metrics[0].resource.as_ref().expect("a resource").target_average_utilization);
}

#[test]
fn test_autoscaler_multi_metrics_resource() {
    let params = params(vec![("cpu", 42), ("memory", 50), ("minimum", 6), ("maximum", 7)]);
    let autoscaler = Autoscaler::from_params("release".into(), "instance".into(), "component".into(), &params, None);
    let kauto = autoscaler.to_horizontal_pod_autoscaler();
    assert_eq!("instance-trait-autoscaler".to_string(), kauto.metadata.name);
    let spec = kauto.spec.expect("spec");
    assert_eq!(7, spec.max_replicas);
    assert_eq!(Some(6), spec.min_replicas);
    let metrics = spec.metrics.expect("metrics");
    assert_eq!(Some(42), metrics[0].resource.as_ref().expect("a resource").target_average_utilization);
    assert_eq!(Some(50), metrics[1].resource.as_ref().expect("a resource").target_average_utilization);
}

fn autoscaler_from(props: JsonValue) -> Autoscaler {
    let binding = TraitBinding { name: String::from("auto-scaler"), parameter_values: None, properties: Some(props) };
    Autoscaler::from_properties(
        "release".into(),
        "instance".into(),
        "component".into(),
        binding.properties.as_ref(),
        None,
    )
}

#[test]
fn test_autoscaler_v1alpha1_cpu() {
    let autoscaler = autoscaler_from(object(vec![("cpu", num(42)), ("maximum", num(7)), ("minimum", num(6))]));
    let kauto = autoscaler.to_horizontal_pod_autoscaler();
    assert_eq!("instance-trait-autoscaler".to_string(), kauto.metadata.name);
    let spec = kauto.spec.expect("spec");
    assert_eq!(7, spec.max_replicas);
    assert_eq!(Some(6), spec.min_replicas);
    let metrics = spec.metrics.expect("metrics");
    assert_eq!(Some(42), metrics[0].resource.as_ref().expect("a resource").target_average_utilization);
}

#[test]
fn test_autoscaler_v1alpha1_memory() {
    let autoscaler = autoscaler_from(object(vec![("maximum", num(7)), ("memory", num(50)), ("minimum", num(6))]));
    let kauto = autoscaler.to_horizontal_pod_autoscaler();
    assert_eq!("instance-trait-autoscaler".to_string(), kauto.metadata.name);
    let spec = kauto.spec.expect("spec");
    assert_eq!(7, spec.max_replicas);
    assert_eq!(Some(6), spec.min_replicas);
    let metrics = spec.metrics.expect("metrics");
    assert_eq!(Some(50), metrics[0].resource.as_ref().expect("a resource").target_average_utilization);
}

#[test]
fn test_autoscaler_v1alpha1_multi_metrics_resource() {
    let autoscaler = autoscaler_from(object(vec![
        ("cpu", num(42)),
        ("maximum", num(7)),
        ("memory", num(50)),
        ("minimum", num(6)),
    ]));
    let kauto = autoscaler.to_horizontal_pod_autoscaler();
    assert_eq!("instance-trait-autoscaler".to_string(), kauto.metadata.name);
    let spec = kauto.spec.expect("spec");
    assert_eq!(7, spec.max_replicas);
    assert_eq!(Some(6), spec.min_replicas);
    let metrics = spec.metrics.expect("metrics");
    assert_eq!(Some(42), metrics[0].resource.as_ref().expect("a resource").target_average_utilization);
    assert_eq!(Some(50), metrics[1].resource.as_ref().expect("a resource").target_average_utilization);
}

#[test]
fn autoscaler_maximum_defaults_to_ten_above_minimum() {
    let autoscaler = autoscaler_from(object(vec![("minimum", num(3))]));
    let spec = autoscaler.to_horizontal_pod_autoscaler().spec.expect("spec");
    assert_eq!(13, spec.max_replicas);
    assert_eq!(0, spec.metrics.expect("metrics").len());
    assert_eq!("Deployment", spec.scale_target_ref.kind);
    assert_eq!("instance", spec.scale_target_ref.name);
}

#[test]
fn autoscaler_status_reports_replicas_or_error() {
    let autoscaler = autoscaler_from(object(vec![]));
    let ok = autoscaler.status_of(Ok(Some(3))).expect("a status");
    assert_eq!(Some(&"3".to_string()), ok.get("horizontalpodautoscaler/instance-trait-autoscaler"));
    let err = autoscaler.status_of(Err("boom".to_string())).expect("a status");
    assert_eq!(Some(&"boom".to_string()), err.get("horizontalpodautoscaler/instance-trait-autoscaler"));
    assert!(autoscaler.status_of(Ok(None)).is_none());
}

#[test]
fn test_ingress_defaults() {
    let ig = Ingress {
        name: "my-ingress".into(),
        instance_name: "squid".into(),
        component_name: "patsy".into(),
        svc_port: 8080,
        hostname: None,
        path: None,
        tls_hosts: None,
        tls_secret_name: None,
        owner_ref: None,
    };
    let ing = ig.to_ext_ingress();
    let spec = ing.spec.expect("spec required");
    let rules = spec.rules.expect("rules required");
    let rule = rules.get(0).expect("one rule required");
    assert_eq!(Some("example.com".into()), rule.host);
    assert_eq!(Some("/".into()), rule.paths.get(0).expect("path required").path);
    let tls_vec = spec.tls.expect("tls expected");
    assert_eq!(0, tls_vec.len());
}

fn ingress_from(props: JsonValue) -> Ingress {
    let binding = TraitBinding { name: String::from("ingress"), parameter_values: None, properties: Some(props) };
    Ingress::from_properties("my-ingress".into(), "squid".into(), "patsy".into(), binding.properties.as_ref(), None)
}

#[test]
fn test_ingress_v1alpha1() {
    let ig = ingress_from(object(vec![
        ("hostname", text("in.example.com")),
        ("path", text("/path")),
        ("servicePort", num(9999)),
        ("tlsHosts", text("x.example.com,y.example.com,z.example.com")),
        ("tlsSecretName", text("my_secret")),
    ]));
    let king = ig.to_ext_ingress();
    assert_eq!("squid-trait-ingress", king.metadata.name);
    let spec = king.spec.expect("spec is required");
    assert_eq!(1, spec.rules.as_ref().unwrap().len());
    let rule = spec.rules.as_ref().expect("rules are required").get(0).expect("a rule is required");
    assert_eq!("in.example.com", rule.host.as_ref().expect("host is required").to_string());
    let path = rule.paths.get(0).expect("at least one path is required");
    assert_eq!("/path", path.path.clone().expect("must be a path.path").as_str());
    assert_eq!("squid", path.backend.service_name.as_str());
    assert_eq!(9999, path.backend.service_port);
    let tls = spec.tls.as_ref().expect("tls expected").get(0).expect("one tls expected");
    assert_eq!("my_secret", tls.secret_name.as_ref().expect("secret expected"));
    let tls_hosts = tls.hosts.as_ref().expect("hosts are expected");
    assert_eq!(3, tls_hosts.len());
    assert_eq!("x.example.com", tls_hosts.get(0).expect("host is expected"));
    assert_eq!("y.example.com", tls_hosts.get(1).expect("host is expected"));
    assert_eq!("z.example.com", tls_hosts.get(2).expect("host is expected"));
}

#[test]
fn test_ingress_v1alpha1_invalid_service_port() {
    let ig = ingress_from(object(vec![
        ("hostname", text("in.example.com")),
        ("path", text("/path")),
        ("servicePort", float("8080.01")),
    ]));
    let king = ig.to_ext_ingress();
    let spec = king.spec.expect("spec is required");
    let rule = spec.rules.as_ref().expect("rules are required").get(0).expect("a rule is required");
    let path = rule.paths.get(0).expect("at least one path is required");
    assert_eq!(80, path.backend.service_port);
}

#[test]
fn test_ingress_v1alpha_defaults() {
    let ig = ingress_from(object(vec![("servicePort", num(9999))]));
    let king = ig.to_ext_ingress();
    let spec = king.spec.expect("spec required");
    let rule = spec.rules.as_ref().expect("rules required").get(0).expect("one rule required");
    assert_eq!(Some("example.com".into()), rule.host);
    assert_eq!(Some("/".into()), rule.paths.get(0).expect("path required").path);
    assert_eq!(0, spec.tls.expect("tls expected").len());
}

#[test]
fn ingress_status_reports_creation() {
    let ig = ingress_from(object(vec![]));
    let created = ig.status_of(Ok(true)).expect("a status");
    assert_eq!(Some(&"created".to_string()), created.get("ingress/squid-trait-ingress"));
    assert!(ig.status_of(Ok(false)).is_none());
}

#[test]
fn test_manual_scaler_workload_types() {
    let matches = vec![SERVER_NAME, TASK_NAME];
    for m in matches {
        assert!(ManualScaler::supports_workload_type(m));
    }
    let no_matches = vec![SINGLETON_TASK_NAME, SINGLETON_SERVER_NAME];
    for m in no_matches {
        assert!(!ManualScaler::supports_workload_type(m));
    }
}

fn scaler(replica_count: i32, workload_type: &str) -> ManualScaler {
    ManualScaler {
        name: "name".into(),
        instance_name: "inst_name".into(),
        component_name: "comp_name".into(),
        owner_ref: None,
        replica_count,
        workload_type: workload_type.into(),
    }
}

#[test]
fn test_scale_deployment() {
    let first = Deployment {
        spec: Some(DeploymentSpec { replicas: Some(5), ..Default::default() }),
        ..Default::default()
    };
    let ms = scaler(9, SERVER_NAME);
    let second = ms.scale_deployment(first);
    assert_eq!(Some(9), second.spec.expect("spec is required").replicas);
}

#[test]
fn test_scale_job() {
    let first = Job { spec: Some(JobSpec { parallelism: Some(5), ..Default::default() }), ..Default::default() };
    let ms = scaler(9, TASK_NAME);
    let second = ms.scale_job(first);
    assert_eq!(Some(9), second.spec.expect("spec is required").parallelism);
}

#[test]
fn test_manual_scaler_v1alpha1_properties() {
    let first = Job { spec: Some(JobSpec { parallelism: Some(3), ..Default::default() }), ..Default::default() };
    let binding = TraitBinding {
        name: String::from("manual-scaler"),
        parameter_values: None,
        properties: Some(object(vec![("replicaCount", num(3))])),
    };
    let ms = ManualScaler::from_properties(
        "release".into(),
        "instance".into(),
        "component".into(),
        binding.properties.as_ref(),
        None,
        "core.oam.dev/v1alpha1.Task".into(),
    );
    let second = ms.scale_job(first);
    assert_eq!(Some(3), second.spec.expect("spec is required").parallelism);
}

#[test]
fn manual_scaler_reads_replica_count_from_params() {
    let mut p: ParamMap = StrMap::new();
    p.insert("replicaCount".into(), num(4));
    let ms = ManualScaler::from_params("r".into(), "i".into(), "c".into(), &p, None, SERVER_NAME.into());
    assert_eq!(4, ms.replica_count);
    let mut p: ParamMap = StrMap::new();
    p.insert("replicaCount".into(), text("7"));
    let ms = ManualScaler::from_params("r".into(), "i".into(), "c".into(), &p, None, SERVER_NAME.into());
    assert_eq!(7, ms.replica_count);
    let mut p: ParamMap = StrMap::new();
    p.insert("replicaCount".into(), text("seven"));
    let ms = ManualScaler::from_params("r".into(), "i".into(), "c".into(), &p, None, SERVER_NAME.into());
    assert_eq!(1, ms.replica_count);
    let ms = ManualScaler::from_params("r".into(), "i".into(), "c".into(), &StrMap::new(), None, SERVER_NAME.into());
    assert_eq!(1, ms.replica_count);
}

#[test]
fn manual_scaler_targets_by_workload_type() {
    assert_eq!(ScaleTarget::Deployment, scaler(1, SERVER_NAME).scale_target());
    assert_eq!(ScaleTarget::Deployment, scaler(1, "core.oam.dev/v1alpha1.Worker").scale_target());
    assert_eq!(ScaleTarget::Job, scaler(1, TASK_NAME).scale_target());
    assert_eq!(ScaleTarget::Function, scaler(1, "openfaas.com/v1alpha2.Function").scale_target());
    assert_eq!(ScaleTarget::Unsupported, scaler(1, SINGLETON_TASK_NAME).scale_target());
    let labels = scaler(-2, SERVER_NAME).scale_function_labels(StrMap::new());
    assert_eq!(Some(&"-2".to_string()), labels.get("com.openfaas.scale.min"));
}

#[test]
fn test_ingress_workload_types() {
    assert!(Ingress::supports_workload_type(SERVER_NAME));
    assert!(Ingress::supports_workload_type(SINGLETON_SERVER_NAME));
}

#[test]
fn test_autoscaler_workload_types() {
    assert!(Autoscaler::supports_workload_type(SERVER_NAME));
    assert!(!Autoscaler::supports_workload_type(SINGLETON_SERVER_NAME));
}

fn mock_container(name: &str) -> Container {
    Container {
        name: name.to_string(),
        image: String::new(),
        image_pull_secret: None,
        resources: Resources {
            volumes: Some(vec![Volume {
                name: "panda-bears".to_string(),
                mount_path: "/var/foo".to_string(),
                sharing_policy: SharingPolicy::Exclusive,
                access_mode: AccessMode::RO,
                disk: Some(Disk { required: "123M".to_string(), ephemeral: false }),
            }]),
            ..Default::default()
        },
        cmd: None,
        args: None,
        env: vec![],
        config: None,
        ports: vec![],
        liveness_probe: None,
        readiness_probe: None,
    }
}

#[test]
fn test_from_properties_v1alpha1() {
    let component = Component {
        workload_type: "Server".into(),
        parameters: vec![],
        containers: vec![],
        workload_settings: vec![],
        ..Default::default()
    };
    let binding = TraitBinding {
        name: String::from("volume-mounter"),
        parameter_values: None,
        properties: Some(object(vec![("storageClass", text("really-fast")), ("volumeName", text("panda-bears"))])),
    };
    let vm = VolumeMounter::from_properties(
        "my-volume-mount".to_string(),
        "instance name".to_string(),
        "component name".to_string(),
        binding.properties.as_ref(),
        None,
        component,
    );
    assert_eq!("really-fast", vm.storage_class);
    assert_eq!("panda-bears", vm.volume_name);
}

#[test]
fn volume_mounter_claims_the_named_volume() {
    let component = Component { containers: vec![mock_container("c1")], ..Default::default() };
    let binding_props = object(vec![("storageClass", text("fast")), ("volumeName", text("PANDA-bears"))]);
    let vm = VolumeMounter::from_properties(
        "app".to_string(),
        "inst".to_string(),
        "comp".to_string(),
        Some(&binding_props),
        None,
        component,
    );
    assert_eq!("panda-bears", vm.find_volume().expect("a volume").name);
    let pvc = vm.to_pvc();
    assert_eq!("PANDA-bears", pvc.metadata.name);
    assert_eq!(Some(&"volume-mounter".to_string()), pvc.metadata.labels.get("trait"));
    let spec = pvc.spec.expect("spec");
    assert_eq!(Some(vec!["ReadOnlyMany".to_string()]), spec.access_modes);
    assert_eq!(Some(&"123M".to_string()), spec.requests.as_ref().expect("requests").get("storage"));
    assert_eq!(Some("fast".to_string()), spec.storage_class_name);
    let status = vm.status_of(Ok(None));
    assert_eq!(Some(&"unknown phase".to_string()), status.get("persistentvolumeclaim/PANDA-bears"));
}

#[test]
fn volume_mounter_defaults_without_volume() {
    let vm = VolumeMounter::from_properties(
        "app".to_string(),
        "inst".to_string(),
        "comp".to_string(),
        None,
        None,
        Component::default(),
    );
    assert_eq!("", vm.volume_name);
    assert!(vm.find_volume().is_none());
    let spec = vm.to_pvc().spec.expect("spec");
    assert_eq!(Some(vec!["ReadWriteOnce".to_string()]), spec.access_modes);
    assert_eq!(Some(&"200M".to_string()), spec.requests.as_ref().expect("requests").get("storage"));
}

fn manager(traits: Vec<TraitBinding>) -> TraitManager {
    TraitManager {
        config_name: "config".into(),
        instance_name: "inst".into(),
        component: ComponentConfiguration {
            name: "comp".into(),
            instance_name: "inst".into(),
            parameter_values: None,
            traits: Some(traits),
            application_scopes: None,
        },
        parent_params: vec![],
        owner_ref: None,
        workload_type: SERVER_NAME.into(),
        component_schematic: Component::default(),
        traits: vec![],
    }
}

#[test]
fn trait_manager_loads_each_binding() {
    let mut m = manager(vec![
        TraitBinding {
            name: "ingress".into(),
            parameter_values: None,
            properties: Some(object(vec![("servicePort", num(81))])),
        },
        TraitBinding { name: "empty".into(), parameter_values: None, properties: None },
        TraitBinding {
            name: "manual-scaler".into(),
            parameter_values: None,
            properties: Some(object(vec![("replicaCount", num(2))])),
        },
    ]);
    assert!(m.load_traits().is_ok());
    assert_eq!(3, m.traits.len());
    match &m.traits[0] {
        OAMTrait::Ingress(i) => {
            assert_eq!(81, i.svc_port);
            assert_eq!("config", i.name);
            assert_eq!("comp", i.component_name);
        },
        _ => panic!("an ingress"),
    }
    assert!(matches!(m.traits[1], OAMTrait::Empty(_)));
    match &m.traits[2] {
        OAMTrait::ManualScaler(s) => assert_eq!(2, s.replica_count),
        _ => panic!("a manual scaler"),
    }
}

#[test]
fn trait_manager_rejects_unknown_traits() {
    let mut m = manager(vec![
        TraitBinding { name: "empty".into(), parameter_values: None, properties: None },
        TraitBinding { name: "teleporter".into(), parameter_values: None, properties: None },
    ]);
    let err = m.load_traits().expect_err("unknown trait");
    assert_eq!("unknown trait teleporter", err.to_string());
    assert_eq!(0, m.traits.len());
}

#[test]
fn trait_statuses_merge_in_order() {
    let mut a: StrMap<String> = StrMap::new();
    a.insert("ingress/x".into(), "created".into());
    let mut b: StrMap<String> = StrMap::new();
    b.insert("ingress/x".into(), "again".into());
    b.insert("hpa/y".into(), "3".into());
    let merged = merge_status(&vec![Some(a), None, Some(b)]).expect("a status");
    assert_eq!(2, merged.len());
    assert_eq!(Some(&"again".to_string()), merged.get("ingress/x"));
    assert!(merge_status(&vec![None, Some(StrMap::new())]).is_none());
}

#[test]
fn traits_act_by_phase() {
    let mut m = manager(vec![
        TraitBinding {
            name: "ingress".into(),
            parameter_values: None,
            properties: Some(object(vec![("servicePort", num(81))])),
        },
        TraitBinding { name: "empty".into(), parameter_values: None, properties: None },
        TraitBinding {
            name: "manual-scaler".into(),
            parameter_values: None,
            properties: Some(object(vec![("replicaCount", num(2))])),
        },
        TraitBinding { name: "volume-mounter".into(), parameter_values: None, properties: None },
    ]);
    assert!(m.load_traits().is_ok());
    assert_eq!(vec![TraitAction::Nothing, TraitAction::Nothing, TraitAction::Nothing, TraitAction::Create], m.actions(Phase::PreAdd));
    assert_eq!(vec![TraitAction::Create, TraitAction::Nothing, TraitAction::Scale, TraitAction::Nothing], m.actions(Phase::Add));
    assert_eq!(vec![TraitAction::Nothing, TraitAction::Nothing, TraitAction::Nothing, TraitAction::Nothing], m.actions(Phase::PreModify));
    assert_eq!(vec![TraitAction::Update, TraitAction::Nothing, TraitAction::Scale, TraitAction::Update], m.actions(Phase::Modify));
    assert_eq!(vec![TraitAction::Nothing, TraitAction::Nothing, TraitAction::Nothing, TraitAction::Nothing], m.actions(Phase::PreDelete));
    assert_eq!(vec![TraitAction::Delete, TraitAction::Nothing, TraitAction::Nothing, TraitAction::Delete], m.actions(Phase::Delete));
}

#[test]
fn volume_mounters_carry_the_component_schematic() {
    let mut m = manager(vec![TraitBinding {
        name: "volume-mounter".into(),
        parameter_values: None,
        properties: Some(object(vec![("volumeName", text("panda-bears"))])),
    }]);
    m.component_schematic = Component { containers: vec![mock_container("c1")], ..Default::default() };
    assert!(m.load_traits().is_ok());
    match &m.traits[0] {
        OAMTrait::VolumeMounter(v) => {
            assert_eq!(1, v.component.containers.len());
            assert_eq!("c1", v.component.containers[0].name);
            assert_eq!("panda-bears", v.find_volume().expect("the schematic's volume").name);
        }
        _ => panic!("a volume mounter"),
    }
}

#[test]
fn scaling_steps_follow_the_reads_and_writes() {
    let e = || Err("boom".to_string());
    for t in [SERVER_NAME, TASK_NAME, "core.oam.dev/v1alpha1.Worker"] {
        let ms = scaler(3, t);
        assert_eq!(ScaleStep::Read, ms.scale_step(None, None));
        assert_eq!(ScaleStep::Finish(Ok(())), ms.scale_step(Some(e()), None));
        assert_eq!(ScaleStep::Write, ms.scale_step(Some(Ok(())), None));
        assert_eq!(ScaleStep::Finish(e()), ms.scale_step(Some(Ok(())), Some(e())));
        assert_eq!(ScaleStep::Finish(Ok(())), ms.scale_step(Some(Ok(())), Some(Ok(()))));
    }
    let faas = scaler(3, "openfaas.com/v1alpha2.Function");
    assert_eq!(ScaleStep::Read, faas.scale_step(None, None));
    assert_eq!(ScaleStep::Finish(e()), faas.scale_step(Some(e()), None));
    assert_eq!(ScaleStep::Write, faas.scale_step(Some(Ok(())), None));
    let other = scaler(3, "core.oam.dev/v1alpha1.SingletonServer");
    assert_eq!(ScaleStep::Finish(Ok(())), other.scale_step(None, None));
}
