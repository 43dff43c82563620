//! Component schematics: the containers of a component and what they become
//! in a pod.
use vstd::prelude::*;
use crate::json::JsonValue;
use crate::schematic::parameter::{Parameter, ParameterType, ResolvedVals, resolve_value, spec_resolve_value};
use crate::strings::{decimal, usize_to_string};
use crate::strmap::{StrMap, opt_view, views};

pub mod model;
pub mod pod;

verus! {

/// The default workload type if none is present.
pub const DEFAULT_WORKLOAD_TYPE: &'static str = "core.hydra.io/v1alpha1.Singleton";

/// Component describes the "spec" of a Hydra component schematic.
#[derive(Clone, Debug)]
pub struct Component {
    pub workload_type: String,
    pub os_type: Option<String>,
    pub arch: Option<String>,
    pub parameters: Vec<Parameter>,
    pub containers: Vec<Container>,
    pub workload_settings: Vec<WorkloadSetting>,
}

/// Container describes the container configuration for a Component.
#[derive(Clone, Debug)]
pub struct Container {
    pub name: String,
    pub image: String,
    pub image_pull_secret: Option<String>,
    pub resources: Resources,
    pub cmd: Option<Vec<String>>,
    pub args: Option<Vec<String>>,
    pub env: Vec<Env>,
    pub config: Option<Vec<ConfigFile>>,
    pub ports: Vec<Port>,
    pub liveness_probe: Option<HealthProbe>,
    pub readiness_probe: Option<HealthProbe>,
}

/// Workload settings describe the configuration for a workload.
///
/// This information is passed to the underlying workload defined by Component::workload_type.
#[derive(Clone, Debug)]
pub struct WorkloadSetting {
    pub name: String,
    pub description: Option<String>,
    pub parameter_type: ParameterType,
    pub required: bool,
    pub default: Option<JsonValue>,
    pub from_param: Option<String>,
}

/// ConfigFile describes locations to write configuration as files accessible within the container
#[derive(Clone, Debug)]
pub struct ConfigFile {
    pub path: String,
    pub value: Option<String>,
    pub from_param: Option<String>,
}

/// Env describes an environment variable for a container.
#[derive(Clone, Debug)]
pub struct Env {
    pub name: String,
    pub value: Option<String>,
    pub from_param: Option<String>,
}

/// Port describes a port on a Container.
#[derive(Clone, Debug)]
pub struct Port {
    pub name: String,
    pub container_port: i32,
    pub protocol: PortProtocol,
}

/// HealthProbe describes a probe used to check on the health of a Container.
#[derive(Clone, Debug)]
pub struct HealthProbe {
    pub exec_probe: Option<Exec>,
    pub http_get: Option<HttpGet>,
    pub tcp_socket: Option<TcpSocket>,
    pub initial_delay_seconds: i32,
    pub period_seconds: i32,
    pub timeout_seconds: i32,
    pub success_threshold: i32,
    pub failure_threshold: i32,
}

/// Exec describes a shell command, as an array, for execution in a Container.
#[derive(Clone, Debug)]
pub struct Exec {
    pub command: Vec<String>,
}

/// HttpGet describes an HTTP GET request used to probe a container.
#[derive(Clone, Debug)]
pub struct HttpGet {
    pub path: String,
    pub port: i32,
    pub http_headers: Vec<HttpHeader>,
}

/// HttpHeader describes an HTTP header.
///
/// Headers are not stored as a map of name/value because the same header is allowed
/// multiple times.
#[derive(Clone, Debug)]
pub struct HttpHeader {
    pub name: String,
    pub value: String,
}

/// TcpSocket defines a socket used for health probing.
#[derive(Clone, Debug)]
pub struct TcpSocket {
    pub port: i32,
}

/// Resources defines the resources required by a container.
#[derive(Clone, Debug)]
pub struct Resources {
    pub cpu: Option<CPU>,
    pub memory: Option<Memory>,
    pub gpu: Option<GPU>,
    pub volumes: Option<Vec<Volume>>,
    pub extended: Option<Vec<ExtendedResource>>,
}

/// CPU describes a CPU resource allocation for a container.
///
/// It indicates how much CPU (core count) is required for this container to operate.
#[derive(Clone, Debug)]
pub struct CPU {
    pub required: String,
}

/// Memory describes the memory allocation for a container.
///
/// It indicates the required amount of memory for a container to operate.
#[derive(Clone, Debug)]
pub struct Memory {
    pub required: String,
}

/// GPU describes a Container's need for a GPU.
///
/// It indicates how many (if any) GPU cores a container needs to operate.
#[derive(Clone, Debug)]
pub struct GPU {
    pub required: String,
}

/// Volume describes a path that is attached to a Container.
///
/// It specifies not only the location, but also the requirements.
#[derive(Clone, Debug)]
pub struct Volume {
    pub name: String,
    pub mount_path: String,
    pub access_mode: AccessMode,
    pub sharing_policy: SharingPolicy,
    pub disk: Option<Disk>,
}

/// Disk describes the disk requirements for backing a Volume.
#[derive(Clone, Debug)]
pub struct Disk {
    pub required: String,
    pub ephemeral: bool,
}

/// AccessMode defines the access modes for file systems.
///
/// Currently, only read/write and read-only are supported.
#[derive(Clone, Copy, Debug, PartialEq, Eq, Structural)]
pub enum AccessMode {
    RW,
    RO,
}

/// SharingPolicy defines whether a filesystem can be shared across containers.
///
/// An Exclusive filesystem can only be attached to one container.
#[derive(Clone, Copy, Debug, PartialEq, Eq, Structural)]
pub enum SharingPolicy {
    Shared,
    Exclusive,
}

/// An extended resource that a container requires.
#[derive(Clone, Debug)]
pub struct ExtendedResource {
    pub name: String,
    pub required: String,
}

/// PortProtocol is a protocol used when attaching to ports.
///
/// Currently, only TCP and UDP are supported by Kubernetes.
#[derive(Clone, Copy, Debug, PartialEq, Eq, Structural)]
pub enum PortProtocol {
    TCP,
    UDP,
    SCTP,
}

/// The name of a protocol.
pub open spec fn protocol_name(p: PortProtocol) -> Seq<char> {
    match p {
        PortProtocol::TCP => "TCP"@,
        PortProtocol::UDP => "UDP"@,
        PortProtocol::SCTP => "SCTP"@,
    }
}

impl PortProtocol {
    pub fn as_str(&self) -> (s: &'static str)
        ensures
            s@ == protocol_name(*self),
    {
        match self {
            PortProtocol::UDP => "UDP",
            PortProtocol::SCTP => "SCTP",
            PortProtocol::TCP => "TCP",
        }
    }

    pub fn to_string(&self) -> (s: String)
        ensures
            s@ == protocol_name(*self),
    {
        self.as_str().to_string()
    }
}

impl Default for PortProtocol {
    fn default() -> (p: Self)
        ensures
            p == PortProtocol::TCP,
    {
        PortProtocol::TCP
    }
}

impl Default for AccessMode {
    fn default() -> (m: Self)
        ensures
            m == AccessMode::RW,
    {
        AccessMode::RW
    }
}

impl Default for SharingPolicy {
    fn default() -> (p: Self)
        ensures
            p == SharingPolicy::Exclusive,
    {
        SharingPolicy::Exclusive
    }
}

impl Default for Disk {
    fn default() -> (d: Disk)
        ensures
            d.required@ == "1G"@,
            !d.ephemeral,
    {
        Disk { required: "1G".to_string(), ephemeral: false }
    }
}

impl Default for Resources {
    fn default() -> (r: Self)
        ensures
            r.cpu is None,
            r.memory is None,
            r.gpu is None,
            r.volumes is None,
            r.extended is None,
    {
        Resources { cpu: None, memory: None, gpu: None, volumes: None, extended: None }
    }
}

impl Default for HealthProbe {
    fn default() -> (p: Self)
        ensures
            p.exec_probe is None && p.http_get is None && p.tcp_socket is None,
            p.initial_delay_seconds == 0,
            p.period_seconds == 10,
            p.timeout_seconds == 1,
            p.success_threshold == 1,
            p.failure_threshold == 3,
    {
        HealthProbe {
            exec_probe: None,
            http_get: None,
            tcp_socket: None,
            initial_delay_seconds: 0,
            period_seconds: 10,
            timeout_seconds: 1,
            success_threshold: 1,
            failure_threshold: 3,
        }
    }
}

impl Default for Component {
    fn default() -> (c: Self)
        ensures
            c.workload_type@ == "core.hydra.io/v1alpha1.Singleton"@,
            c.os_type is None,
            c.arch is None,
            c.parameters@.len() == 0,
            c.containers@.len() == 0,
            c.workload_settings@.len() == 0,
    {
        Component {
            workload_type: "core.hydra.io/v1alpha1.Singleton".to_string(),
            os_type: None,
            arch: None,
            parameters: Vec::new(),
            containers: Vec::new(),
            workload_settings: Vec::new(),
        }
    }
}

/// The position of the first container that lists a port.
pub open spec fn first_container_with_port(cs: Seq<Container>) -> Option<int>
    decreases cs.len(),
{
    if cs.len() == 0 {
        None
    } else if cs[0].ports@.len() > 0 {
        Some(0)
    } else {
        match first_container_with_port(cs.subrange(1, cs.len() as int)) {
            Some(i) => Some(i + 1),
            None => None,
        }
    }
}

pub(crate) proof fn lemma_first_container_with_port(cs: Seq<Container>, i: int)
    requires
        0 <= i <= cs.len(),
        forall|j: int| 0 <= j < i ==> cs[j].ports@.len() == 0,
    ensures
        i < cs.len() && cs[i].ports@.len() > 0 ==> first_container_with_port(cs) == Some(i),
        i == cs.len() ==> first_container_with_port(cs) is None,
    decreases i,
{
    if i > 0 {
        let rest = cs.subrange(1, cs.len() as int);
        assert forall|j: int| 0 <= j < i - 1 implies rest[j].ports@.len() == 0 by {
            assert(rest[j] == cs[j + 1]);
        }
        lemma_first_container_with_port(rest, i - 1);
        if i < cs.len() {
            assert(rest[i - 1] == cs[i]);
        }
    }
}

/// The labels that place a pod on nodes of an OS and architecture.
pub open spec fn spec_node_selector(os: Option<Seq<char>>, arch: Option<Seq<char>>) -> Option<Map<Seq<char>, Seq<char>>> {
    let m1 = match os {
        Some(o) => Map::<Seq<char>, Seq<char>>::empty().insert("kubernetes.io/os"@, o),
        None => Map::empty(),
    };
    let m2 = match arch {
        Some(a) => m1.insert("kubernetes.io/arch"@, a),
        None => m1,
    };
    if os is None && arch is None {
        None
    } else {
        Some(m2)
    }
}

/// The text a config file or an environment variable resolves to.
pub open spec fn spec_config_text(params: Map<Seq<char>, crate::json::Json>, c: ConfigFile) -> Option<Seq<char>> {
    spec_resolve_value(params, opt_view(c.from_param), opt_view(c.value))
}

/// The name of the file a path names (`Path::file_name`).
pub uninterp spec fn path_file_name(p: Seq<char>) -> Option<Seq<char>>;

/// The directory a path is in (`Path::parent`).
pub uninterp spec fn path_parent(p: Seq<char>) -> Option<Seq<char>>;

/// The file name of a path, with `std::path::Path::file_name`.
///
/// The result is named `path_file_name` of the path: std reads the same name
/// from the same text on every machine of this project (a Unix path).
#[verifier::external_body]
fn file_name(p: &str) -> (r: Option<String>)
    ensures
        opt_view(r) == path_file_name(p@),
{
    std::path::Path::new(p).file_name().map(|f| f.to_string_lossy().into_owned())
}

/// The parent directory of a path, with `std::path::Path::parent`.
///
/// The result is named `path_parent` of the path.
#[verifier::external_body]
fn parent_dir(p: &str) -> (r: Option<String>)
    ensures
        opt_view(r) == path_parent(p@),
{
    std::path::Path::new(p).parent().map(|d| d.to_string_lossy().into_owned())
}

/// The configuration files of a container, none where it has none.
pub open spec fn configs_of(c: Container) -> Seq<ConfigFile> {
    match c.config {
        Some(v) => v@,
        None => Seq::empty(),
    }
}

/// Every configuration file has a file name and a value.
pub open spec fn configs_evaluable(cs: Seq<Container>, params: Map<Seq<char>, crate::json::Json>) -> bool {
    forall|c: int, i: int|
        0 <= c < cs.len() && 0 <= i < configs_of(cs[c]).len() ==> path_file_name(
            (#[trigger] configs_of(cs[c])[i]).path@,
        ) is Some && spec_config_text(params, configs_of(cs[c])[i]) is Some
}

/// The configuration maps of the first `k` config files of a container, added to `m`.
pub open spec fn add_configs(
    m: Map<Seq<char>, Map<Seq<char>, Seq<char>>>,
    name: Seq<char>,
    cfgs: Seq<ConfigFile>,
    params: Map<Seq<char>, crate::json::Json>,
    k: nat,
) -> Map<Seq<char>, Map<Seq<char>, Seq<char>>>
    decreases k,
{
    if k == 0 {
        m
    } else {
        let c = cfgs[k - 1];
        add_configs(m, name, cfgs, params, (k - 1) as nat).insert(
            name + decimal((k - 1) as nat),
            Map::empty().insert(path_file_name(c.path@)->0, spec_config_text(params, c)->0),
        )
    }
}

/// The configuration maps of all containers: one per config file, named by
/// the container's name and the file's position, holding the file's name and
/// content.
pub open spec fn spec_evaluate_configs(cs: Seq<Container>, params: Map<Seq<char>, crate::json::Json>) -> Map<
    Seq<char>,
    Map<Seq<char>, Seq<char>>,
>
    decreases cs.len(),
{
    if cs.len() == 0 {
        Map::empty()
    } else {
        let c = cs.last();
        add_configs(
            spec_evaluate_configs(cs.drop_last(), params),
            c.name@,
            configs_of(c),
            params,
            configs_of(c).len(),
        )
    }
}

/// The image pull secret of a container, if it names one.
pub open spec fn pull_secret_of(c: Container) -> Option<Seq<char>> {
    match c.image_pull_secret {
        Some(n) => Some(n@),
        None => None,
    }
}

/// A volume mount of a container.
#[derive(Clone, Debug, PartialEq)]
pub struct VolumeMount {
    pub mount_path: String,
    pub name: String,
    pub read_only: Option<bool>,
}

impl ConfigFile {
    /// The content of the file: the named parameter's value, else the literal value.
    pub fn resolve_value(&self, params: &ResolvedVals) -> (s: String)
        requires
            spec_config_text(params@, *self) is Some,
        ensures
            s@ == spec_config_text(params@, *self)->0,
    {
        match resolve_value(params, &self.from_param, &self.value) {
            Some(v) => v,
            None => String::new(),
        }
    }
}

/// An environment variable of a container.
#[derive(Clone, Debug, PartialEq)]
pub struct EnvVar {
    pub name: String,
    pub value: Option<String>,
}

impl Env {
    /// The environment variable: the named parameter's value, else the literal value.
    pub fn to_env_var(&self, params: &ResolvedVals) -> (e: EnvVar)
        ensures
            e.name@ == self.name@,
            opt_view(e.value) == spec_resolve_value(params@, opt_view(self.from_param), opt_view(self.value)),
    {
        EnvVar { name: self.name.clone(), value: resolve_value(params, &self.from_param, &self.value) }
    }
}

/// A port of a container in a pod.
#[derive(Clone, Debug, PartialEq)]
pub struct ContainerPort {
    pub container_port: i32,
    pub name: Option<String>,
    pub protocol: Option<String>,
}

/// A port of a service.
#[derive(Clone, Debug, PartialEq)]
pub struct ServicePort {
    pub port: i32,
    pub target_port: Option<i32>,
    pub name: Option<String>,
    pub protocol: Option<String>,
}

impl Port {
    pub fn to_container_port(&self) -> (p: ContainerPort)
        ensures
            p.container_port == self.container_port,
            opt_view(p.name) == Some(self.name@),
            opt_view(p.protocol) == Some(protocol_name(self.protocol)),
    {
        ContainerPort {
            container_port: self.container_port,
            name: Some(self.name.clone()),
            protocol: Some(self.protocol.to_string()),
        }
    }

    /// The service port that forwards to this port.
    pub fn to_service_port(&self) -> (p: ServicePort)
        ensures
            p.port == self.container_port,
            p.target_port == Some(self.container_port),
            opt_view(p.name) == Some(self.name@),
            opt_view(p.protocol) == Some(protocol_name(self.protocol)),
    {
        let port = self.container_port;
        ServicePort {
            port,
            target_port: Some(port),
            name: Some(self.name.clone()),
            protocol: Some(self.protocol.to_string()),
        }
    }
}

/// The resource requests of a container: its CPU and memory, where given.
pub open spec fn spec_requests(r: Resources) -> Map<Seq<char>, Seq<char>> {
    let m1 = match r.cpu {
        Some(c) => Map::<Seq<char>, Seq<char>>::empty().insert("cpu"@, c.required@),
        None => Map::empty(),
    };
    match r.memory {
        Some(mem) => m1.insert("memory"@, mem.required@),
        None => m1,
    }
}

impl Resources {
    /// The resource requests of a container: its CPU and memory.
    pub fn to_resource_requirements(&self) -> (requests: StrMap<String>)
        ensures
            requests@ == spec_requests(*self),
    {
        let mut requests: StrMap<String> = StrMap::new();
        match &self.cpu {
            Some(cpu) => {
                requests.insert("cpu".to_string(), cpu.required.clone());
            },
            None => {},
        }
        match &self.memory {
            Some(mem) => {
                requests.insert("memory".to_string(), mem.required.clone());
            },
            None => {},
        }
        requests
    }
}

/// The volumes of a container, none where it has none.
pub open spec fn volumes_of(c: Container) -> Seq<Volume> {
    match c.resources.volumes {
        Some(v) => v@,
        None => Seq::empty(),
    }
}

/// Every config file path has a parent directory.
pub open spec fn config_paths_have_parents(c: Container) -> bool {
    forall|i: int| 0 <= i < configs_of(c).len() ==> path_parent((#[trigger] configs_of(c)[i]).path@) is Some
}

/// The volume mounts of a container: one per config file, in the directory
/// of the file, named by the container and the file's position; then one per
/// volume; none where there are none.
pub open spec fn mounts_of(r: Option<Vec<VolumeMount>>, c: Container) -> bool {
    let nc = configs_of(c).len();
    let nv = volumes_of(c).len();
    match r {
        None => nc + nv == 0,
        Some(v) => nc + nv > 0 && v@.len() == nc + nv && (forall|i: int|
            0 <= i < nc ==> (#[trigger] v@[i]).mount_path@ == path_parent(configs_of(c)[i].path@)->0 && v@[i].name@
                == c.name@ + decimal(i as nat) && v@[i].read_only is None) && (forall|i: int|
            0 <= i < nv ==> (#[trigger] v@[nc + i]).mount_path@ == volumes_of(c)[i].mount_path@ && v@[nc + i].name@
                == volumes_of(c)[i].name@ && v@[nc + i].read_only == Some(volumes_of(c)[i].access_mode == AccessMode::RO)),
    }
}

impl Container {
    /// Whether every config file path of the container has a parent
    /// directory, so that its mounts can be made.
    pub fn config_paths_resolvable(&self) -> (b: bool)
        ensures
            b == config_paths_have_parents(*self),
    {
        match &self.config {
            Some(files) => {
                let n = files.len();
                let mut i: usize = 0;
                while i < n
                    invariant
                        n == files@.len(),
                        configs_of(*self) == files@,
                        i <= n,
                        forall|j: int| 0 <= j < i ==> path_parent((#[trigger] files@[j]).path@) is Some,
                    decreases n - i,
                {
                    if parent_dir(files[i].path.as_str()).is_none() {
                        return false;
                    }
                    i = i + 1;
                }
                true
            },
            None => true,
        }
    }

    /// The mount of the `file_index`-th config file: its directory, under the
    /// container's name and the file's position.
    pub fn volume_mount(&self, file_index: usize, config_file: &ConfigFile) -> (m: VolumeMount)
        requires
            path_parent(config_file.path@) is Some,
        ensures
            m.mount_path@ == path_parent(config_file.path@)->0,
            m.name@ == self.name@ + decimal(file_index as nat),
            m.read_only is None,
    {
        let path = match parent_dir(config_file.path.as_str()) {
            Some(p) => p,
            None => String::new(),
        };
        VolumeMount {
            mount_path: path,
            name: self.name.clone().concat(usize_to_string(file_index).as_str()),
            read_only: None,
        }
    }

    /// Generate volume mounts for a container: one per config file, then one
    /// per volume; none where there are none.
    pub fn volume_mounts(&self) -> (r: Option<Vec<VolumeMount>>)
        requires
            config_paths_have_parents(*self),
        ensures
            mounts_of(r, *self),
    {
        let mut volumes: Vec<VolumeMount> = Vec::new();
        let ghost cfgs = configs_of(*self);
        let ghost vols = volumes_of(*self);
        match &self.config {
            Some(p) => {
                let n = p.len();
                let mut i: usize = 0;
                while i < n
                    invariant
                        n == p@.len(),
                        cfgs == p@,
                        cfgs == configs_of(*self),
                        config_paths_have_parents(*self),
                        i <= n,
                        volumes@.len() == i,
                        forall|j: int|
                            0 <= j < i ==> (#[trigger] volumes@[j]).mount_path@ == path_parent(cfgs[j].path@)->0
                                && volumes@[j].name@ == self.name@ + decimal(j as nat) && volumes@[j].read_only is None,
                    decreases n - i,
                {
                    assert(path_parent(configs_of(*self)[i as int].path@) is Some);
                    volumes.push(self.volume_mount(i, &p[i]));
                    i = i + 1;
                }
            },
            None => {},
        }
        let nc = volumes.len();
        match &self.resources.volumes {
            Some(vs) => {
                let n = vs.len();
                let mut i: usize = 0;
                while i < n
                    invariant
                        n == vs@.len(),
                        vols == vs@,
                        nc == cfgs.len(),
                        i <= n,
                        volumes@.len() == nc + i,
                        forall|j: int|
                            0 <= j < nc ==> (#[trigger] volumes@[j]).mount_path@ == path_parent(cfgs[j].path@)->0
                                && volumes@[j].name@ == self.name@ + decimal(j as nat) && volumes@[j].read_only is None,
                        forall|j: int|
                            0 <= j < i ==> (#[trigger] volumes@[nc + j]).mount_path@ == vols[j].mount_path@
                                && volumes@[nc + j].name@ == vols[j].name@ && volumes@[nc + j].read_only
                                == Some(vols[j].access_mode == AccessMode::RO),
                    decreases n - i,
                {
                    let vol = &vs[i];
                    volumes.push(
                        VolumeMount {
                            mount_path: vol.mount_path.clone(),
                            name: vol.name.clone(),
                            read_only: Some(vol.access_mode == AccessMode::RO),
                        },
                    );
                    i = i + 1;
                }
            },
            None => {},
        }
        if volumes.len() == 0 {
            None
        } else {
            Some(volumes)
        }
    }
}

impl Component {
    /// listening_port returns the first container port listed.
    pub fn listening_port(&self) -> (r: Option<&Port>)
        ensures
            match first_container_with_port(self.containers@) {
                Some(c) => r == Some(&self.containers@[c].ports@[0]),
                None => r is None,
            },
    {
        let n = self.containers.len();
        let mut i: usize = 0;
        while i < n
            invariant
                n == self.containers@.len(),
                i <= n,
                forall|j: int| 0 <= j < i ==> self.containers@[j].ports@.len() == 0,
            decreases n - i,
        {
            if self.containers[i].ports.len() > 0 {
                proof {
                    lemma_first_container_with_port(self.containers@, i as int);
                }
                return Some(&self.containers[i].ports[0]);
            }
            i = i + 1;
        }
        proof {
            lemma_first_container_with_port(self.containers@, n as int);
        }
        None
    }

    /// The node selector of the component's pods: its OS and architecture.
    pub fn to_node_selector(&self) -> (r: Option<StrMap<String>>)
        ensures
            match r {
                Some(m) => spec_node_selector(opt_view(self.os_type), opt_view(self.arch)) == Some(m@),
                None => spec_node_selector(opt_view(self.os_type), opt_view(self.arch)) is None,
            },
    {
        let mut selector: StrMap<String> = StrMap::new();
        match &self.os_type {
            Some(os) => {
                selector.insert("kubernetes.io/os".to_string(), os.clone());
            },
            None => {},
        }
        match &self.arch {
            Some(arch) => {
                selector.insert("kubernetes.io/arch".to_string(), arch.clone());
            },
            None => {},
        }
        if selector.is_empty() {
            return None;
        }
        Some(selector)
    }

    /// The names of the secrets to pull the containers' images with, in
    /// container order.
    pub fn image_pull_secrets(&self) -> (r: Vec<String>)
        ensures
            views(r@) == self.containers@.filter_map(|c: Container| pull_secret_of(c)),
    {
        let mut out: Vec<String> = Vec::new();
        let n = self.containers.len();
        let mut i: usize = 0;
        while i < n
            invariant
                n == self.containers@.len(),
                i <= n,
                views(out@) == self.containers@.subrange(0, i as int).filter_map(|c: Container| pull_secret_of(c)),
            decreases n - i,
        {
            let ghost before = views(out@);
            match &self.containers[i].image_pull_secret {
                Some(n) => {
                    out.push(n.clone());
                },
                None => {},
            }
            proof {
                let s = self.containers@.subrange(0, i + 1);
                assert(s.drop_last() =~= self.containers@.subrange(0, i as int));
                assert(s.last() == self.containers@[i as int]);
                assert(views(out@) =~= s.filter_map(|c: Container| pull_secret_of(c)));
            }
            i = i + 1;
        }
        proof {
            assert(self.containers@.subrange(0, n as int) =~= self.containers@);
        }
        out
    }

    /// The configuration files of the containers as configuration maps: one
    /// per file, named by the container's name and the file's position, with
    /// the file's name and content.
    pub fn evaluate_configs(&self, resolved_vals: &ResolvedVals) -> (configs: StrMap<StrMap<String>>)
        requires
            configs_evaluable(self.containers@, resolved_vals@),
        ensures
            configs@ == spec_evaluate_configs(self.containers@, resolved_vals@),
    {
        let mut configs: StrMap<StrMap<String>> = StrMap::new();
        let n = self.containers.len();
        let mut c: usize = 0;
        while c < n
            invariant
                n == self.containers@.len(),
                c <= n,
                configs_evaluable(self.containers@, resolved_vals@),
                configs@ == spec_evaluate_configs(self.containers@.subrange(0, c as int), resolved_vals@),
            decreases n - c,
        {
            let container = &self.containers[c];
            let ghost before = configs@;
            proof {
                let s = self.containers@.subrange(0, c + 1);
                assert(s.drop_last() =~= self.containers@.subrange(0, c as int));
                assert(s.last() == *container);
            }
            match &container.config {
                Some(cfgs) => {
                    let m = cfgs.len();
                    let mut i: usize = 0;
                    while i < m
                        invariant
                            m == cfgs@.len(),
                            cfgs@ == configs_of(*container),
                            *container == self.containers@[c as int],
                            c < n,
                            n == self.containers@.len(),
                            i <= m,
                            configs_evaluable(self.containers@, resolved_vals@),
                            configs@ == add_configs(before, container.name@, cfgs@, resolved_vals@, i as nat),
                        decreases m - i,
                    {
                        let conf = &cfgs[i];
                        assert(configs_of(self.containers@[c as int])[i as int] == *conf);
                        let fname = match file_name(conf.path.as_str()) {
                            Some(f) => f,
                            None => String::new(),
                        };
                        let mut values: StrMap<String> = StrMap::new();
                        values.insert(fname, conf.resolve_value(resolved_vals));
                        configs.insert(container.name.clone().concat(usize_to_string(i).as_str()), values);
                        i = i + 1;
                    }
                },
                None => {},
            }
            c = c + 1;
        }
        proof {
            assert(self.containers@.subrange(0, n as int) =~= self.containers@);
        }
        configs
    }

    /// The configuration maps of the containers, or `None` where a config
    /// file has no file name or no value.
    pub fn try_evaluate_configs(&self, resolved_vals: &ResolvedVals) -> (r: Option<StrMap<StrMap<String>>>)
        ensures
            match r {
                Some(configs) => configs_evaluable(self.containers@, resolved_vals@) && configs@
                    == spec_evaluate_configs(self.containers@, resolved_vals@),
                None => !configs_evaluable(self.containers@, resolved_vals@),
            },
    {
        let n = self.containers.len();
        let mut c: usize = 0;
        while c < n
            invariant
                n == self.containers@.len(),
                c <= n,
                forall|a: int, i: int|
                    0 <= a < c && 0 <= i < configs_of(self.containers@[a]).len() ==> path_file_name(
                        (#[trigger] configs_of(self.containers@[a])[i]).path@,
                    ) is Some && spec_config_text(resolved_vals@, configs_of(self.containers@[a])[i]) is Some,
            decreases n - c,
        {
            match &self.containers[c].config {
                Some(cfgs) => {
                    let m = cfgs.len();
                    let mut i: usize = 0;
                    while i < m
                        invariant
                            m == cfgs@.len(),
                            cfgs@ == configs_of(self.containers@[c as int]),
                            c < n,
                            n == self.containers@.len(),
                            i <= m,
                            forall|a: int, k: int|
                                0 <= a < c && 0 <= k < configs_of(self.containers@[a]).len() ==> path_file_name(
                                    (#[trigger] configs_of(self.containers@[a])[k]).path@,
                                ) is Some && spec_config_text(resolved_vals@, configs_of(self.containers@[a])[k]) is Some,
                            forall|k: int|
                                0 <= k < i ==> path_file_name((#[trigger] cfgs@[k]).path@) is Some
                                    && spec_config_text(resolved_vals@, cfgs@[k]) is Some,
                        decreases m - i,
                    {
                        let conf = &cfgs[i];
                        if file_name(conf.path.as_str()).is_none() || resolve_value(resolved_vals, &conf.from_param, &conf.value).is_none() {
                            return None;
                        }
                        i = i + 1;
                    }
                },
                None => {},
            }
            c = c + 1;
        }
        Some(self.evaluate_configs(resolved_vals))
    }
}

} // verus!
