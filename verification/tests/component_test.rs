use rudr::json::JsonValue;
use rudr::schematic::component::pod::VolumeSource;
use rudr::schematic::component::{
    AccessMode, Component, ConfigFile, Container, Disk, Env, HealthProbe, HttpGet, HttpHeader, Memory,
    Port, PortProtocol, Resources, SharingPolicy, Volume, CPU, GPU,
};
use rudr::schematic::parameter::{resolve_parameters, Parameter, ParameterType, ResolvedVals};
use rudr::strmap::StrMap;

fn container(name: &str) -> Container {
    Container {
        name: name.to_string(),
        image: "nginx:latest".to_string(),
        image_pull_secret: None,
        resources: Resources::default(),
        cmd: None,
        args: None,
        env: vec![],
        config: None,
        ports: vec![],
        liveness_probe: None,
        readiness_probe: None,
    }
}

fn port(name: &str, number: i32) -> Port {
    Port { name: name.to_string(), container_port: number, protocol: PortProtocol::TCP }
}

fn component(containers: Vec<Container>) -> Component {
    Component { containers, ..Default::default() }
}

fn string_param(name: &str, default: &str) -> Parameter {
    Parameter {
        name: name.to_string(),
        description: None,
        parameter_type: ParameterType::String,
        required: false,
        default: Some(JsonValue::from_str(default)),
    }
}

fn number_param(name: &str, default: i64) -> Parameter {
    Parameter {
        name: name.to_string(),
        description: None,
        parameter_type: ParameterType::Number,
        required: false,
        default: Some(JsonValue::from_i64(default)),
    }
}

#[test]
fn component_listening_port() {
    let mut c2 = container("container2");
    c2.ports = vec![port("good", 443), port("bad", 8080)];
    let mut c3 = container("container3");
    c3.ports = vec![port("bad", 31337)];
    let comp = component(vec![container("container1"), c2, c3]);
    assert_eq!("good", comp.listening_port().expect("one listening port").name);

    let comp = component(vec![container("container1"), container("container2"), container("container3")]);
    assert!(comp.listening_port().is_none());
}

#[test]
fn test_to_env_vars() {
    let env = vec![
        Env { name: "VAR_ONE".into(), value: None, from_param: Some("one".into()) },
        Env { name: "VAR_TWO".into(), value: None, from_param: Some("two".into()) },
        Env { name: "VAR_THREE".into(), value: Some("3".into()), from_param: Some("no_such_param".into()) },
        Env { name: "VAR_FOUR".into(), value: None, from_param: Some("four".into()) },
    ];

    let mut valmap: ResolvedVals = StrMap::new();
    valmap.insert("one".to_string(), JsonValue::from_str("hello one"));
    valmap.insert("two".to_string(), JsonValue::from_str("2"));
    valmap.insert("three".to_string(), JsonValue::from_str("3"));

    let one = env[0].to_env_var(&valmap);
    let two = env[1].to_env_var(&valmap);
    let three = env[2].to_env_var(&valmap);
    let four = env[3].to_env_var(&valmap);

    assert_eq!("hello one", one.value.expect("found one val").as_str());
    assert_eq!("2", two.value.expect("found two val").as_str());
    assert_eq!("3", three.value.expect("found three val").as_str());

    // This is None because the valmap was never coalesced with the root values.
    assert_eq!(None, four.value);
}

#[test]
fn test_to_service_port() {
    let port = Port { name: "test".into(), container_port: 443, protocol: PortProtocol::TCP };
    assert_eq!(443, port.to_service_port().port);
    assert_eq!(443, port.to_service_port().target_port.expect("port"));
}

#[test]
fn test_to_node_seletor() {
    let comp = Component { os_type: Some("linux".into()), arch: Some("amd64".into()), ..Default::default() };
    let mut selector: StrMap<String> = StrMap::new();
    selector.insert("kubernetes.io/os".to_string(), "linux".to_string());
    selector.insert("kubernetes.io/arch".to_string(), "amd64".to_string());
    assert_eq!(Some(selector), comp.to_node_selector())
}

#[test]
fn test_to_volume_mounts() {
    let mut c = container("test_container");
    c.image = "test/image".into();
    c.resources = Resources {
        cpu: Some(CPU { required: "1".into() }),
        memory: Some(Memory { required: "128".into() }),
        gpu: Some(GPU { required: "0".into() }),
        volumes: Some(vec![Volume {
            name: "myvol".into(),
            mount_path: "/myvol".into(),
            access_mode: AccessMode::RO,
            disk: Some(Disk { ephemeral: true, required: "200M".into() }),
            sharing_policy: SharingPolicy::Exclusive,
        }]),
        extended: None,
    };
    c.config = Some(vec![ConfigFile { path: "/config/file".into(), value: Some("value".to_string()), from_param: None }]);
    let mounts = c.volume_mounts();
    assert_eq!(mounts.expect("at least one mount").len(), 2);
}

fn probed_component() -> Component {
    let mut c = container("my_container");
    c.liveness_probe = Some(HealthProbe {
        http_get: Some(HttpGet {
            path: "/healthz".into(),
            port: 9000,
            http_headers: vec![HttpHeader { name: "HOSTNAME".into(), value: "example.com".into() }],
        }),
        ..Default::default()
    });
    Component { os_type: Some("linux".into()), arch: Some("arm64".into()), containers: vec![c], ..Default::default() }
}

#[test]
fn test_to_pod_spec_with_policy() {
    let component = probed_component();
    {
        let map: ResolvedVals = StrMap::new();
        let pod = component.to_pod_spec_with_policy(&map, "Always".to_string());
        let node_selector = pod.node_selector.expect("node selector btree");
        assert_eq!("linux".to_string(), *node_selector.get("kubernetes.io/os").expect("an OS should be present"));
        assert_eq!("arm64".to_string(), *node_selector.get("kubernetes.io/arch").expect("an arch should be present"));
    }
    {
        let map: ResolvedVals = StrMap::new();
        let pod = component.to_pod_spec(&map);
        let node_selector = pod.node_selector.expect("node selector btree");
        assert_eq!("linux".to_string(), *node_selector.get("kubernetes.io/os").expect("an OS should be present"));
        assert_eq!("arm64".to_string(), *node_selector.get("kubernetes.io/arch").expect("an arch should be present"));
    }
}

#[test]
fn pod_spec_keeps_probes_and_policy() {
    let component = probed_component();
    let map: ResolvedVals = StrMap::new();
    let pod = component.to_pod_spec_with_policy(&map, "OnFailure".to_string());
    assert_eq!(Some("OnFailure".to_string()), pod.restart_policy);
    assert_eq!(1, pod.containers.len());
    let probe = pod.containers[0].liveness_probe.as_ref().expect("a liveness probe");
    assert_eq!(Some(3), probe.failure_threshold);
    assert_eq!(Some(10), probe.period_seconds);
    assert_eq!(Some(1), probe.timeout_seconds);
    let http = probe.http_get.as_ref().expect("an http probe");
    assert_eq!(9000, http.port);
    assert_eq!(Some("/healthz".to_string()), http.path);
    assert_eq!("HOSTNAME", http.http_headers.as_ref().unwrap()[0].name);
    assert!(pod.containers[0].readiness_probe.is_none());
    assert_eq!(Some("nginx:latest".to_string()), pod.containers[0].image);
    assert_eq!(0, pod.volumes.expect("volumes").len());
}

#[test]
fn pod_volumes_follow_configs_then_volumes() {
    let mut c = container("web");
    c.config = Some(vec![
        ConfigFile { path: "/etc/a.txt".into(), value: Some("a".into()), from_param: None },
        ConfigFile { path: "/etc/b.txt".into(), value: Some("b".into()), from_param: None },
    ]);
    c.resources.volumes = Some(vec![Volume {
        name: "data".into(),
        mount_path: "/data".into(),
        access_mode: AccessMode::RW,
        sharing_policy: SharingPolicy::Shared,
        disk: Some(Disk { required: "1G".into(), ephemeral: false }),
    }]);
    c.image_pull_secret = Some("regcred".into());
    let comp = component(vec![c]);
    let map: ResolvedVals = StrMap::new();
    let pod = comp.to_pod_spec(&map);
    let vols = pod.volumes.expect("volumes");
    assert_eq!(3, vols.len());
    assert_eq!("web0", vols[0].name);
    assert_eq!("web1", vols[1].name);
    match &vols[1].source {
        VolumeSource::ConfigMap(n) => assert_eq!("web1", n),
        _ => panic!("a config map volume"),
    }
    assert_eq!("data", vols[2].name);
    match &vols[2].source {
        VolumeSource::EmptyDir(size) => assert_eq!(&Some("1G".to_string()), size),
        _ => panic!("an empty dir volume"),
    }
    assert_eq!(Some(vec!["regcred".to_string()]), pod.image_pull_secrets);
    let mounts = pod.containers[0].volume_mounts.as_ref().expect("mounts");
    assert_eq!(3, mounts.len());
    assert_eq!("/etc", mounts[0].mount_path);
    assert_eq!(Some(false), mounts[2].read_only);
}

fn config_component() -> Component {
    let mut c2 = container("container2");
    c2.config = Some(vec![
        ConfigFile { path: "/etc/access/default_user.txt".into(), value: Some("admin".into()), from_param: None },
        ConfigFile { path: "/var/run/db-data".into(), value: None, from_param: Some("one".into()) },
    ]);
    let mut c3 = container("container3");
    c3.config = Some(vec![ConfigFile {
        path: "/etc/access/default_user.txt".into(),
        value: Some("admin".into()),
        from_param: Some("two".into()),
    }]);
    Component {
        parameters: vec![string_param("one", "test one")],
        containers: vec![container("container1"), c2, c3],
        ..Default::default()
    }
}

#[test]
fn test_evaluate_configs() {
    let comp = config_component();
    let resloved_val = resolve_parameters(&comp.parameters, &StrMap::new()).expect("resolved parameter");
    let configs = comp.evaluate_configs(&resloved_val);
    assert_eq!(3, configs.len());
    let mut exp: StrMap<StrMap<String>> = StrMap::new();
    let mut c20: StrMap<String> = StrMap::new();
    c20.insert("default_user.txt".to_string(), "admin".to_string());
    let mut c21: StrMap<String> = StrMap::new();
    c21.insert("db-data".to_string(), "test one".to_string());
    exp.insert("container20".to_string(), c20);
    exp.insert("container21".to_string(), c21);
    let mut c30: StrMap<String> = StrMap::new();
    c30.insert("default_user.txt".to_string(), "admin".to_string());
    exp.insert("container30".to_string(), c30);
    assert_eq!(exp, configs);
}

#[test]
fn test_to_deployment_spec() {
    let comp = Component {
        parameters: vec![string_param("one", "test one")],
        containers: vec![container("container1")],
        ..Default::default()
    };
    let mut labels: StrMap<String> = StrMap::new();
    labels.insert("app".to_string(), "test_deploy".to_string());
    let resloved_val = resolve_parameters(&comp.parameters, &StrMap::new()).expect("resolved parameter");
    let deploy = comp.to_deployment_spec(&resloved_val, Some(labels.copy()), None);
    assert_eq!(deploy.selector, Some(labels.copy()));
    assert_eq!(deploy.template.metadata.unwrap().labels, Some(labels));
    assert_eq!(Some(1), deploy.replicas);
}

#[test]
fn env_vars_take_numbers_as_json_text() {
    let comp = Component { parameters: vec![number_param("two", 2)], ..Default::default() };
    let vals = resolve_parameters(&comp.parameters, &StrMap::new()).expect("resolved");
    let env = Env { name: "VAR_TWO".into(), value: None, from_param: Some("two".into()) };
    assert_eq!(Some("2".to_string()), env.to_env_var(&vals).value);
}

#[test]
fn pods_need_a_directory_for_each_config_file() {
    let mut c = container("c");
    c.config = Some(vec![ConfigFile { path: "/etc/a.txt".into(), value: Some("a".into()), from_param: None }]);
    let mut comp = component(vec![c.clone()]);
    assert!(c.config_paths_resolvable());
    assert!(comp.config_paths_resolvable());
    let spec = comp.try_to_pod_spec(&StrMap::new()).expect("a pod");
    assert_eq!(1, spec.containers.len());
    c.config = Some(vec![ConfigFile { path: "/".into(), value: Some("root".into()), from_param: None }]);
    comp.containers.push(c.clone());
    assert!(!c.config_paths_resolvable());
    assert!(!comp.config_paths_resolvable());
    assert!(comp.try_to_pod_spec(&StrMap::new()).is_none());
}
