//! The mathematical form of a component schematic, and faithful copies of it:
//! every string by its characters, every JSON value by its model, every list
//! by the forms of its items.
use vstd::prelude::*;
use crate::json::Json;
use crate::schematic::component::{
    AccessMode, Component, ConfigFile, Container, CPU, Disk, Env, Exec, ExtendedResource, GPU, HealthProbe, HttpGet,
    HttpHeader, Memory, Port, PortProtocol, Resources, SharingPolicy, TcpSocket, Volume, WorkloadSetting,
};
use crate::schematic::parameter::{Parameter, ParameterType, copy_opt_json, copy_opt_string};
use crate::strmap::{DeepCopy, opt_view, opt_views, opt_vec_copy, vec_copy, views};

verus! {

/// A copy of an optional value.
pub fn opt_copy<T: DeepCopy>(o: &Option<T>) -> (r: Option<T>)
    ensures
        opt_view(r) == opt_view(*o),
{
    match o {
        Some(x) => Some(x.deep_copy()),
        None => None,
    }
}

pub struct ParameterModel {
    pub name: Seq<char>,
    pub description: Option<Seq<char>>,
    pub parameter_type: ParameterType,
    pub required: bool,
    pub default: Option<Json>,
}

impl View for Parameter {
    type V = ParameterModel;

    open spec fn view(&self) -> ParameterModel {
        ParameterModel {
            name: self.name@,
            description: opt_view(self.description),
            parameter_type: self.parameter_type,
            required: self.required,
            default: opt_view(self.default),
        }
    }
}

impl DeepCopy for Parameter {
    fn deep_copy(&self) -> (r: Self) {
        Parameter {
            name: self.name.clone(),
            description: copy_opt_string(&self.description),
            parameter_type: self.parameter_type,
            required: self.required,
            default: copy_opt_json(&self.default),
        }
    }
}

pub struct WorkloadSettingView {
    pub name: Seq<char>,
    pub description: Option<Seq<char>>,
    pub parameter_type: ParameterType,
    pub required: bool,
    pub default: Option<Json>,
    pub from_param: Option<Seq<char>>,
}

impl View for WorkloadSetting {
    type V = WorkloadSettingView;

    open spec fn view(&self) -> WorkloadSettingView {
        WorkloadSettingView {
            name: self.name@,
            description: opt_view(self.description),
            parameter_type: self.parameter_type,
            required: self.required,
            default: opt_view(self.default),
            from_param: opt_view(self.from_param),
        }
    }
}

impl DeepCopy for WorkloadSetting {
    fn deep_copy(&self) -> (r: Self) {
        WorkloadSetting {
            name: self.name.clone(),
            description: copy_opt_string(&self.description),
            parameter_type: self.parameter_type,
            required: self.required,
            default: copy_opt_json(&self.default),
            from_param: copy_opt_string(&self.from_param),
        }
    }
}

/// The form of a config file, and of an environment variable: a name or
/// path, a literal value, and the parameter it may come from.
pub struct NamedValueView {
    pub name: Seq<char>,
    pub value: Option<Seq<char>>,
    pub from_param: Option<Seq<char>>,
}

impl View for ConfigFile {
    type V = NamedValueView;

    open spec fn view(&self) -> NamedValueView {
        NamedValueView { name: self.path@, value: opt_view(self.value), from_param: opt_view(self.from_param) }
    }
}

impl DeepCopy for ConfigFile {
    fn deep_copy(&self) -> (r: Self) {
        ConfigFile {
            path: self.path.clone(),
            value: copy_opt_string(&self.value),
            from_param: copy_opt_string(&self.from_param),
        }
    }
}

impl View for Env {
    type V = NamedValueView;

    open spec fn view(&self) -> NamedValueView {
        NamedValueView { name: self.name@, value: opt_view(self.value), from_param: opt_view(self.from_param) }
    }
}

impl DeepCopy for Env {
    fn deep_copy(&self) -> (r: Self) {
        Env { name: self.name.clone(), value: copy_opt_string(&self.value), from_param: copy_opt_string(&self.from_param) }
    }
}

pub struct PortView {
    pub name: Seq<char>,
    pub container_port: i32,
    pub protocol: PortProtocol,
}

impl View for Port {
    type V = PortView;

    open spec fn view(&self) -> PortView {
        PortView { name: self.name@, container_port: self.container_port, protocol: self.protocol }
    }
}

impl DeepCopy for Port {
    fn deep_copy(&self) -> (r: Self) {
        Port { name: self.name.clone(), container_port: self.container_port, protocol: self.protocol }
    }
}

impl View for Exec {
    type V = Seq<Seq<char>>;

    open spec fn view(&self) -> Seq<Seq<char>> {
        views(self.command@)
    }
}

impl DeepCopy for Exec {
    fn deep_copy(&self) -> (r: Self) {
        Exec { command: vec_copy(&self.command) }
    }
}

impl View for HttpHeader {
    type V = (Seq<char>, Seq<char>);

    open spec fn view(&self) -> (Seq<char>, Seq<char>) {
        (self.name@, self.value@)
    }
}

impl DeepCopy for HttpHeader {
    fn deep_copy(&self) -> (r: Self) {
        HttpHeader { name: self.name.clone(), value: self.value.clone() }
    }
}

pub struct HttpGetView {
    pub path: Seq<char>,
    pub port: i32,
    pub http_headers: Seq<(Seq<char>, Seq<char>)>,
}

impl View for HttpGet {
    type V = HttpGetView;

    open spec fn view(&self) -> HttpGetView {
        HttpGetView { path: self.path@, port: self.port, http_headers: views(self.http_headers@) }
    }
}

impl DeepCopy for HttpGet {
    fn deep_copy(&self) -> (r: Self) {
        HttpGet { path: self.path.clone(), port: self.port, http_headers: vec_copy(&self.http_headers) }
    }
}

impl View for TcpSocket {
    type V = i32;

    open spec fn view(&self) -> i32 {
        self.port
    }
}

impl DeepCopy for TcpSocket {
    fn deep_copy(&self) -> (r: Self) {
        TcpSocket { port: self.port }
    }
}

pub struct HealthProbeView {
    pub exec_probe: Option<Seq<Seq<char>>>,
    pub http_get: Option<HttpGetView>,
    pub tcp_socket: Option<i32>,
    pub initial_delay_seconds: i32,
    pub period_seconds: i32,
    pub timeout_seconds: i32,
    pub success_threshold: i32,
    pub failure_threshold: i32,
}

impl View for HealthProbe {
    type V = HealthProbeView;

    open spec fn view(&self) -> HealthProbeView {
        HealthProbeView {
            exec_probe: opt_view(self.exec_probe),
            http_get: opt_view(self.http_get),
            tcp_socket: opt_view(self.tcp_socket),
            initial_delay_seconds: self.initial_delay_seconds,
            period_seconds: self.period_seconds,
            timeout_seconds: self.timeout_seconds,
            success_threshold: self.success_threshold,
            failure_threshold: self.failure_threshold,
        }
    }
}

impl DeepCopy for HealthProbe {
    fn deep_copy(&self) -> (r: Self) {
        HealthProbe {
            exec_probe: opt_copy(&self.exec_probe),
            http_get: opt_copy(&self.http_get),
            tcp_socket: opt_copy(&self.tcp_socket),
            initial_delay_seconds: self.initial_delay_seconds,
            period_seconds: self.period_seconds,
            timeout_seconds: self.timeout_seconds,
            success_threshold: self.success_threshold,
            failure_threshold: self.failure_threshold,
        }
    }
}

impl View for CPU {
    type V = Seq<char>;

    open spec fn view(&self) -> Seq<char> {
        self.required@
    }
}

impl DeepCopy for CPU {
    fn deep_copy(&self) -> (r: Self) {
        CPU { required: self.required.clone() }
    }
}

impl View for Memory {
    type V = Seq<char>;

    open spec fn view(&self) -> Seq<char> {
        self.required@
    }
}

impl DeepCopy for Memory {
    fn deep_copy(&self) -> (r: Self) {
        Memory { required: self.required.clone() }
    }
}

impl View for GPU {
    type V = Seq<char>;

    open spec fn view(&self) -> Seq<char> {
        self.required@
    }
}

impl DeepCopy for GPU {
    fn deep_copy(&self) -> (r: Self) {
        GPU { required: self.required.clone() }
    }
}

impl View for Disk {
    type V = (Seq<char>, bool);

    open spec fn view(&self) -> (Seq<char>, bool) {
        (self.required@, self.ephemeral)
    }
}

impl DeepCopy for Disk {
    fn deep_copy(&self) -> (r: Self) {
        Disk { required: self.required.clone(), ephemeral: self.ephemeral }
    }
}

pub struct VolumeView {
    pub name: Seq<char>,
    pub mount_path: Seq<char>,
    pub access_mode: AccessMode,
    pub sharing_policy: SharingPolicy,
    pub disk: Option<(Seq<char>, bool)>,
}

impl View for Volume {
    type V = VolumeView;

    open spec fn view(&self) -> VolumeView {
        VolumeView {
            name: self.name@,
            mount_path: self.mount_path@,
            access_mode: self.access_mode,
            sharing_policy: self.sharing_policy,
            disk: opt_view(self.disk),
        }
    }
}

impl DeepCopy for Volume {
    fn deep_copy(&self) -> (r: Self) {
        Volume {
            name: self.name.clone(),
            mount_path: self.mount_path.clone(),
            access_mode: self.access_mode,
            sharing_policy: self.sharing_policy,
            disk: opt_copy(&self.disk),
        }
    }
}

impl View for ExtendedResource {
    type V = (Seq<char>, Seq<char>);

    open spec fn view(&self) -> (Seq<char>, Seq<char>) {
        (self.name@, self.required@)
    }
}

impl DeepCopy for ExtendedResource {
    fn deep_copy(&self) -> (r: Self) {
        ExtendedResource { name: self.name.clone(), required: self.required.clone() }
    }
}

pub struct ResourcesView {
    pub cpu: Option<Seq<char>>,
    pub memory: Option<Seq<char>>,
    pub gpu: Option<Seq<char>>,
    pub volumes: Option<Seq<VolumeView>>,
    pub extended: Option<Seq<(Seq<char>, Seq<char>)>>,
}

impl View for Resources {
    type V = ResourcesView;

    open spec fn view(&self) -> ResourcesView {
        ResourcesView {
            cpu: opt_view(self.cpu),
            memory: opt_view(self.memory),
            gpu: opt_view(self.gpu),
            volumes: opt_views(self.volumes),
            extended: opt_views(self.extended),
        }
    }
}

impl DeepCopy for Resources {
    fn deep_copy(&self) -> (r: Self) {
        Resources {
            cpu: opt_copy(&self.cpu),
            memory: opt_copy(&self.memory),
            gpu: opt_copy(&self.gpu),
            volumes: opt_vec_copy(&self.volumes),
            extended: opt_vec_copy(&self.extended),
        }
    }
}

pub struct ContainerView {
    pub name: Seq<char>,
    pub image: Seq<char>,
    pub image_pull_secret: Option<Seq<char>>,
    pub resources: ResourcesView,
    pub cmd: Option<Seq<Seq<char>>>,
    pub args: Option<Seq<Seq<char>>>,
    pub env: Seq<NamedValueView>,
    pub config: Option<Seq<NamedValueView>>,
    pub ports: Seq<PortView>,
    pub liveness_probe: Option<HealthProbeView>,
    pub readiness_probe: Option<HealthProbeView>,
}

impl View for Container {
    type V = ContainerView;

    open spec fn view(&self) -> ContainerView {
        ContainerView {
            name: self.name@,
            image: self.image@,
            image_pull_secret: opt_view(self.image_pull_secret),
            resources: self.resources@,
            cmd: opt_views(self.cmd),
            args: opt_views(self.args),
            env: views(self.env@),
            config: opt_views(self.config),
            ports: views(self.ports@),
            liveness_probe: opt_view(self.liveness_probe),
            readiness_probe: opt_view(self.readiness_probe),
        }
    }
}

impl DeepCopy for Container {
    fn deep_copy(&self) -> (r: Self) {
        Container {
            name: self.name.clone(),
            image: self.image.clone(),
            image_pull_secret: copy_opt_string(&self.image_pull_secret),
            resources: self.resources.deep_copy(),
            cmd: opt_vec_copy(&self.cmd),
            args: opt_vec_copy(&self.args),
            env: vec_copy(&self.env),
            config: opt_vec_copy(&self.config),
            ports: vec_copy(&self.ports),
            liveness_probe: opt_copy(&self.liveness_probe),
            readiness_probe: opt_copy(&self.readiness_probe),
        }
    }
}

pub struct ComponentView {
    pub workload_type: Seq<char>,
    pub os_type: Option<Seq<char>>,
    pub arch: Option<Seq<char>>,
    pub parameters: Seq<ParameterModel>,
    pub containers: Seq<ContainerView>,
    pub workload_settings: Seq<WorkloadSettingView>,
}

impl View for Component {
    type V = ComponentView;

    open spec fn view(&self) -> ComponentView {
        ComponentView {
            workload_type: self.workload_type@,
            os_type: opt_view(self.os_type),
            arch: opt_view(self.arch),
            parameters: views(self.parameters@),
            containers: views(self.containers@),
            workload_settings: views(self.workload_settings@),
        }
    }
}

impl DeepCopy for Component {
    fn deep_copy(&self) -> (r: Self) {
        Component {
            workload_type: self.workload_type.clone(),
            os_type: copy_opt_string(&self.os_type),
            arch: copy_opt_string(&self.arch),
            parameters: vec_copy(&self.parameters),
            containers: vec_copy(&self.containers),
            workload_settings: vec_copy(&self.workload_settings),
        }
    }
}

} // verus!
