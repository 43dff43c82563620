use rudr::instigator::OwnerReference;
use rudr::json::JsonValue;
use rudr::schematic::component::{Component, Container, Port, PortProtocol, Resources, WorkloadSetting};
use rudr::schematic::parameter::ParameterType;
use rudr::strmap::StrMap;
use rudr::workload_type::extended_workload::openfaas::OpenFaaS;
use rudr::workload_type::extended_workload::others::{form_plural, Others};
use rudr::workload_type::workload_builder::{DeploymentBuilder, JobBuilder};
use rudr::workload_type::{
    form_metadata, load_workload, load_workload_type, CoreWorkloadType, ExtendedWorkloadType, Workload, to_config_maps, validate_worker, Labels, ParamMap, ReplicatedServer,
    ReplicatedTask, ReplicatedWorker, ServiceBuilder, SingletonServer, SingletonTask, SingletonWorker,
    UnknownWorkload, WorkloadKind, WorkloadMetadata,
};

fn object(entries: Vec<(&str, JsonValue)>) -> JsonValue {
    JsonValue::Object(entries.into_iter().map(|(k, v)| (k.to_string(), v)).collect())
}

fn text(s: &str) -> JsonValue {
    JsonValue::from_str(s)
}

fn meta(name: &str, component_name: &str, instance_name: &str, definition: Component) -> WorkloadMetadata {
    WorkloadMetadata {
        name: name.into(),
        component_name: component_name.into(),
        instance_name: instance_name.into(),
        namespace: "tests".into(),
        definition,
        annotations: None,
        params: StrMap::new(),
        owner_ref: None,
    }
}

fn container(name: &str, ports: Vec<Port>) -> Container {
    Container {
        name: name.into(),
        image: "test/foo:latest".into(),
        image_pull_secret: None,
        resources: Resources::default(),
        cmd: None,
        args: None,
        env: vec![],
        config: None,
        ports,
        liveness_probe: None,
        readiness_probe: None,
    }
}

fn setting(name: &str, value: JsonValue) -> WorkloadSetting {
    WorkloadSetting {
        name: name.to_string(),
        description: None,
        parameter_type: ParameterType::Null,
        required: true,
        default: Some(value),
        from_param: None,
    }
}

#[test]
fn test_extract_env() {
    let mut params: ParamMap = StrMap::new();
    params.insert("write_debug".to_string(), text("false"));
    let env = JsonValue::Array(vec![
        object(vec![
            ("fromParam", text("write_debug")),
            ("name", text("write_debug")),
            ("type", text("string")),
            ("value", text("true")),
        ]),
        object(vec![("fromParam", text("key")), ("name", text("key")), ("type", text("string")), ("value", text("hello"))]),
    ]);
    let mut m = meta("test", "test", "test", Component {
        workload_settings: vec![WorkloadSetting { required: false, parameter_type: ParameterType::Null, ..setting("environment", env) }],
        ..Default::default()
    });
    m.namespace = "default".into();
    m.params = params;
    let of = OpenFaaS { meta: m };
    let mut envs: StrMap<String> = StrMap::new();
    envs.insert("write_debug".to_string(), "false".to_string());
    envs.insert("key".to_string(), "hello".to_string());
    assert_eq!(of.extract_environment(), Some(envs))
}

#[test]
fn openfaas_function_needs_an_image() {
    let of = OpenFaaS { meta: meta("f", "f", "f-inst", Component::default()) };
    assert!(of.get_kube_faas().is_err());
    let of = OpenFaaS {
        meta: meta("f", "f", "f-inst", Component {
            workload_settings: vec![setting("image", text("repo/fn:1")), setting("handler", text("main"))],
            ..Default::default()
        }),
    };
    let faas = of.get_kube_faas().expect("a function");
    assert_eq!("f-inst", faas.name);
    assert_eq!("Function", faas.kind);
    assert_eq!("repo/fn:1", faas.spec.image);
    assert_eq!(Some("main".to_string()), faas.spec.handler);
    assert!(faas.spec.environment.is_none());
    assert!(faas.owner_references.is_empty());
}

#[test]
fn test_get_object() {
    let m = meta("test", "test", "test", Component {
        workload_settings: vec![setting("spec", object(vec![("image", text("testrepo/test")), ("name", text("test"))]))],
        ..Default::default()
    });
    let workload = Others::new(WorkloadMetadata { namespace: "default".into(), ..m }, "extend.oam.dev/v1alpha1.Test").unwrap();
    let expected = object(vec![
        ("apiVersion", text("extend.oam.dev/v1alpha1")),
        ("kind", text("Test")),
        ("metadata", object(vec![("name", text("test")), ("ownerReferences", JsonValue::Null)])),
        ("spec", object(vec![("image", text("testrepo/test")), ("name", text("test"))])),
    ]);
    assert_eq!(expected, workload.get_object())
}

#[test]
fn others_needs_a_kind_and_a_spec() {
    let m = meta("t", "t", "t", Component::default());
    assert_eq!(Some(UnknownWorkload::MissingSpec), Others::new(m, "extend.oam.dev/v1alpha1.Test").err());
    let m = meta("t", "t", "t", Component::default());
    assert!(matches!(Others::new(m, "no-slash").err(), Some(UnknownWorkload::BadType(_))));
}

#[test]
fn test_form_plural() {
    assert_eq!("functions", form_plural("function").as_str());
    assert_eq!("prometheuses", form_plural("prometheus").as_str());
}

#[test]
fn plurals_of_other_endings() {
    assert_eq!("policies", form_plural("policy"));
    assert_eq!("branches", form_plural("branch"));
    assert_eq!("meshes", form_plural("mesh"));
    assert_eq!("speces", form_plural("spec"));
    assert_eq!("deployments", form_plural("deployment"));
    assert_eq!("", form_plural(""));
    let m = meta("t", "t", "t", Component { workload_settings: vec![setting("spec", JsonValue::Null)], ..Default::default() });
    let o = Others::new(m, "extend.oam.dev/v1alpha1.Proxy").unwrap();
    assert_eq!("proxies", o.resource_name());
}

#[test]
fn server_test_singleton_service_kube_name() {
    let sing = SingletonServer { meta: meta("de", "hydrate", "squidgy", Component::default()) };
    assert_eq!("squidgy", sing.kube_name().as_str());
    assert_eq!("SingletonServer", sing.labels().get("oam.dev/workload-type").unwrap());
}

#[test]
fn server_test_replicated_service_kube_name() {
    let rs = ReplicatedServer { meta: meta("de", "hydrate", "dehydrate", Component::default()) };
    assert_eq!("dehydrate", rs.kube_name().as_str());
    assert_eq!("Service", rs.labels().get("oam.dev/workload-type").unwrap());
}

#[test]
fn server_test_to_config_maps() {
    let mut exp: StrMap<StrMap<String>> = StrMap::new();
    let mut c20: StrMap<String> = StrMap::new();
    c20.insert("default_user.txt".to_string(), "admin".to_string());
    let mut c21: StrMap<String> = StrMap::new();
    c21.insert("db-data".to_string(), "test one".to_string());
    exp.insert("container20".to_string(), c20.copy());
    exp.insert("container21".to_string(), c21.copy());
    let cms = to_config_maps(&exp, &None, &None);
    assert_eq!(2, cms.len());
    assert_eq!("container20", cms.get(0).unwrap().name.as_str());
    assert_eq!(c20, cms.get(0).unwrap().data);
    assert_eq!(c21, cms.get(1).unwrap().data);
}

#[test]
fn task_test_singleton_task_kube_name() {
    let task = SingletonTask { meta: meta("mytask", "taskrunner", "taskinstance", Component::default()) };
    assert_eq!("taskinstance", task.kube_name().as_str());
}

#[test]
fn task_test_replicated_task_kube_name() {
    let task = ReplicatedTask { meta: meta("mytask", "taskrunner", "taskinstance", Component::default()), replica_count: Some(1) };
    assert_eq!("taskinstance", task.kube_name().as_str());
    assert_eq!("Task", task.labels().get("oam.dev/workload-type").unwrap());
}

#[test]
fn replicated_task_runs_its_replicas_in_parallel() {
    let task = ReplicatedTask { meta: meta("mytask", "taskrunner", "taskinstance", Component::default()), replica_count: None };
    let builder = task.job_builder();
    assert_eq!(Some(1), builder.parallelism);
    assert_eq!("Never", builder.restart_policy);
    let task = ReplicatedTask { meta: meta("mytask", "taskrunner", "taskinstance", Component::default()), replica_count: Some(4) };
    assert_eq!(Some(4), task.job_builder().parallelism);
}

#[test]
fn test_worker_labels() {
    {
        let wrkr = ReplicatedWorker { meta: meta("mytask", "workerbee", "workerinst", Component::default()), replica_count: Some(1) };
        let labels = wrkr.labels();
        assert_eq!("Worker", labels.get("oam.dev/workload-type").expect("worker-type label must be set"))
    }
    {
        let wrkr = SingletonWorker { meta: meta("mytask", "workerbee", "workerinst", Component::default()) };
        let labels = wrkr.labels();
        assert_eq!("SingletonWorker", labels.get("oam.dev/workload-type").expect("worker-type label must be set"))
    }
}

#[test]
fn test_singleton_worker_kube_name() {
    let wrkr = SingletonWorker { meta: meta("mytask", "workermcworkyface", "workerinst", Component::default()) };
    assert_eq!("workerinst", wrkr.kube_name().as_str());
}

#[test]
fn test_replicated_worker_kube_name() {
    let mut annotations: Labels = StrMap::new();
    annotations.insert("annotation1".to_string(), "value".to_string());
    let mut m = meta("mytask", "workerbee", "workerinst", Component::default());
    m.annotations = Some(annotations);
    let wrkr = ReplicatedWorker { meta: m, replica_count: Some(1) };
    assert_eq!("workerinst", wrkr.kube_name().as_str());
}

#[test]
fn workers_must_not_listen() {
    let good = Component { containers: vec![container("good-container", vec![])], ..Default::default() };
    let wrkr = SingletonWorker { meta: meta("t", "w", "wi", good) };
    assert!(wrkr.validate().is_ok());
    let bad = Component {
        containers: vec![
            container("good-container", vec![]),
            container("bad-container", vec![Port { name: "http".into(), container_port: 80, protocol: PortProtocol::TCP }]),
        ],
        ..Default::default()
    };
    let m = meta("t", "w", "wi", bad);
    let err = validate_worker(&m).expect_err("a port");
    assert_eq!("Worker container named bad-container has a port declared", err.to_string());
}

#[test]
fn test_workload_metadata() {
    let mut wmd = meta("name", "component_name", "instance name", skeleton_component());
    wmd.namespace = "namespace".into();
    wmd.owner_ref = skeleton_owner_ref();
    let labels = wmd.labels("type");
    assert_eq!("instance name", labels.get("oam.dev/instance-name").expect("expect an instance name"));
    assert_eq!("name", labels.get("app.kubernetes.io/name").expect("app name"));
    assert_eq!("type", labels.get("oam.dev/workload-type").expect("expect a workload type"));
    let select_labels = wmd.select_labels();
    assert_eq!("instance name", select_labels.get("oam.dev/instance-name").expect("expect an instance name"));
    assert_eq!("name", select_labels.get("app.kubernetes.io/name").expect("app name"));
}

#[test]
fn test_deployment_builder() {
    let mut annotations: Labels = StrMap::new();
    annotations.insert("key1".to_string(), "val1".to_string());
    annotations.insert("key2".to_string(), "val2".to_string());
    let deployment = DeploymentBuilder::new("test".into(), skeleton_component())
        .parameter_map(StrMap::new())
        .labels(skeleton_labels())
        .annotations(Some(annotations))
        .owner_ref(skeleton_owner_ref())
        .to_deployment();
    assert_eq!(deployment.metadata.labels.len(), 2);
    assert_eq!(deployment.metadata.owner_references.as_ref().expect("owners").len(), 1);
    let spec = deployment.spec.expect("spec");
    let template_meta = spec.template.metadata.expect("metadata");
    assert_eq!(template_meta.annotations.expect("annotations").len(), 2);
    assert_eq!(spec.template.spec.expect("spec").restart_policy, Some("Always".into()));
}

#[test]
fn test_job_builder() {
    let mut annotations: Labels = StrMap::new();
    annotations.insert("key1".to_string(), "val1".to_string());
    annotations.insert("key2".to_string(), "val2".to_string());
    let job = JobBuilder::new("testjob".into(), skeleton_component())
        .labels(skeleton_labels())
        .annotations(Some(annotations))
        .restart_policy("OnError".into())
        .owner_ref(skeleton_owner_ref())
        .parallelism(2)
        .to_job();
    assert_eq!(job.metadata.labels.len(), 2);
    assert_eq!(job.metadata.owner_references.as_ref().expect("owners").len(), 1);
    let spec = job.spec.expect("spec");
    assert_eq!(Some(4), spec.backoff_limit);
    assert_eq!(Some(2), spec.parallelism);
    let template_meta = spec.template.metadata.expect("metadata");
    assert_eq!(template_meta.annotations.expect("annotations").len(), 2);
    assert_eq!(spec.template.spec.expect("spec").restart_policy, Some("OnError".into()));
}

#[test]
fn test_service_builder() {
    let svc = ServiceBuilder::new("test".into(), skeleton_component())
        .labels(skeleton_labels())
        .select_labels(skeleton_select_labels())
        .owner_ref(skeleton_owner_ref())
        .to_service()
        .expect("service");
    assert_eq!(svc.metadata.labels.len(), 2);
    assert_eq!(svc.selector.len(), 1);
    assert_eq!(svc.metadata.owner_references.as_ref().expect("owners").len(), 1);
    assert_eq!(80, svc.ports[0].port);
}

#[test]
fn test_form_metadata() {
    let mut labels: Labels = StrMap::new();
    labels.insert("first".into(), "one".into());
    labels.insert("second".into(), "two".into());
    let meta = form_metadata("test".to_string(), labels.copy(), None);
    assert_eq!("test", meta.name);
    assert_eq!(labels, meta.labels);
    assert!(meta.owner_references.is_none());
}

#[test]
fn test_service_builder_no_port() {
    let c = Component {
        workload_type: "worker".into(),
        os_type: Some("linux".into()),
        arch: Some("amd64".into()),
        parameters: vec![],
        containers: vec![container("foo", vec![])],
        workload_settings: vec![],
    };
    assert!(ServiceBuilder::new("test".into(), c)
        .labels(skeleton_labels())
        .owner_ref(skeleton_owner_ref())
        .to_service()
        .is_none());
}

#[test]
fn workload_types_load_by_name() {
    let c = Component { workload_type: "core.oam.dev/v1alpha1.Task".into(), ..Default::default() };
    assert!(matches!(load_workload_type(&c), Ok(WorkloadKind::ReplicatedTask)));
    let c = Component { workload_type: "openfaas.com/v1alpha2.Function".into(), ..Default::default() };
    assert!(matches!(load_workload_type(&c), Ok(WorkloadKind::OpenFaaS)));
    let c = Component {
        workload_type: "extend.oam.dev/v1alpha1.Test".into(),
        workload_settings: vec![setting("spec", JsonValue::Null)],
        ..Default::default()
    };
    match load_workload_type(&c) {
        Ok(WorkloadKind::Others(gvk)) => assert_eq!("Test", gvk.kind),
        _ => panic!("a custom workload"),
    }
}

#[test]
fn server_status_reports_both_objects() {
    let rs = ReplicatedServer { meta: meta("de", "hydrate", "dehydrate", Component::default()) };
    let status = rs.status_of(Ok("running".into()), Err("NotFound".into()));
    assert_eq!(Some(&"running".to_string()), status.get("deployment/dehydrate"));
    assert_eq!(Some(&"NotFound".to_string()), status.get("service/dehydrate"));
    assert!(rudr::workload_type::is_not_found("services \"x\" NotFound"));
}

fn skeleton_labels() -> Labels {
    let mut labels: Labels = StrMap::new();
    labels.insert("first".into(), "one".into());
    labels.insert("second".into(), "two".into());
    labels
}

fn skeleton_select_labels() -> Labels {
    let mut labels: Labels = StrMap::new();
    labels.insert("first".into(), "one".into());
    labels
}

fn skeleton_component() -> Component {
    Component {
        workload_type: "worker".into(),
        os_type: Some("linux".into()),
        arch: Some("amd64".into()),
        parameters: vec![],
        containers: vec![container("foo", vec![Port { container_port: 80, name: "http".into(), protocol: PortProtocol::TCP }])],
        workload_settings: vec![],
    }
}

fn skeleton_owner_ref() -> Option<Vec<OwnerReference>> {
    Some(vec![OwnerReference {
        api_version: String::new(),
        kind: String::new(),
        name: String::new(),
        uid: String::new(),
        controller: None,
        block_owner_deletion: None,
    }])
}

fn worker_components() -> (Component, Component) {
    let good = Component { containers: vec![container("good-container", vec![])], ..Default::default() };
    let mut bad = good.clone();
    bad.containers.push(container(
        "bad-container",
        vec![
            Port { name: "http".into(), container_port: 80, protocol: PortProtocol::TCP },
            Port { name: "https".into(), container_port: 443, protocol: PortProtocol::TCP },
        ],
    ));
    (good, bad)
}

#[test]
fn test_singleton_worker_validate() {
    let (good, bad) = worker_components();
    let wrkr = SingletonWorker { meta: meta("mytask", "workermcworkyface", "workerinst", bad) };
    assert!(wrkr.validate().is_err());
    let wrkr = SingletonWorker { meta: meta("mytask", "workermcworkyface", "workerinst", good) };
    assert!(wrkr.validate().is_ok());
}

#[test]
fn test_replicated_worker_validate() {
    let (good, bad) = worker_components();
    let wrkr = ReplicatedWorker { meta: meta("mytask", "workermcworkyface", "workerinst", bad), replica_count: Some(132) };
    assert!(wrkr.validate().is_err());
    let wrkr = ReplicatedWorker { meta: meta("mytask", "workermcworkyface", "workerinst", good), replica_count: Some(132) };
    assert!(wrkr.validate().is_ok());
}

fn typed(workload_type: &str) -> Component {
    Component { workload_type: workload_type.into(), ..Default::default() }
}

#[test]
fn workloads_load_with_their_metadata() {
    let c = typed("core.oam.dev/v1alpha1.Task");
    match load_workload(&c, meta("cfg", "comp", "inst", c.clone())) {
        Ok(Workload::Core(CoreWorkloadType::ReplicatedTaskType(t))) => {
            assert_eq!(Some(1), t.replica_count);
            assert_eq!("inst", t.meta.instance_name);
        }
        _ => panic!("a replicated task"),
    }
    let c = typed("core.oam.dev/v1alpha1.Worker");
    match load_workload(&c, meta("cfg", "comp", "inst", c.clone())) {
        Ok(Workload::Core(CoreWorkloadType::ReplicatedWorkerType(w))) => assert_eq!(Some(1), w.replica_count),
        _ => panic!("a replicated worker"),
    }
    let c = typed("openfaas.com/v1alpha2.Function");
    assert!(matches!(
        load_workload(&c, meta("cfg", "comp", "inst", c.clone())),
        Ok(Workload::Extended(ExtendedWorkloadType::OpenFaaS(_)))
    ));
    let c = typed("bad");
    let err = match load_workload(&c, meta("cfg", "comp", "inst", c.clone())) {
        Err(e) => e,
        Ok(_) => panic!("an unknown workload type"),
    };
    assert_eq!("workloadType bad is unknown, missing version and kind", err.to_string());
    let c = typed("example.com/v1.Thing");
    let err = match load_workload(&c, meta("cfg", "comp", "inst", c.clone())) {
        Err(e) => e,
        Ok(_) => panic!("a custom type without spec"),
    };
    assert_eq!(
        "workloadType example.com/v1.Thing is unknown, unknown workload type must have spec in workloadSettings",
        err.to_string()
    );
}
