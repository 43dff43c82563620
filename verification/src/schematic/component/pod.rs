//! What a component becomes in a pod: its containers, their probes, and the
//! volumes of the pod.
use vstd::prelude::*;
use crate::json::Json;
use crate::schematic::component::{
    Component, Container, ContainerPort, EnvVar, Exec, HealthProbe, HttpGet, HttpHeader, Port, TcpSocket,
    VolumeMount, Env, configs_of, volumes_of, mounts_of, config_paths_have_parents, spec_requests, protocol_name,
    pull_secret_of, spec_node_selector,
};
use crate::schematic::parameter::{ResolvedVals, spec_resolve_value};
use crate::strings::{decimal, usize_to_string};
use crate::strmap::{StrMap, opt_view, opt_views, views};

verus! {

/// A command run in a container to probe it.
#[derive(Debug)]
pub struct ExecAction {
    pub command: Option<Vec<String>>,
}

/// A header of an HTTP probe.
#[derive(Debug, PartialEq)]
pub struct KubeHttpHeader {
    pub name: String,
    pub value: String,
}

/// An HTTP GET request that probes a container.
#[derive(Debug)]
pub struct HttpGetAction {
    pub http_headers: Option<Vec<KubeHttpHeader>>,
    pub path: Option<String>,
    pub port: i32,
}

/// A TCP connection that probes a container.
#[derive(Debug, PartialEq)]
pub struct TcpSocketAction {
    pub port: i32,
}

/// A probe of a container in a pod.
#[derive(Debug)]
pub struct Probe {
    pub failure_threshold: Option<i32>,
    pub period_seconds: Option<i32>,
    pub timeout_seconds: Option<i32>,
    pub success_threshold: Option<i32>,
    pub initial_delay_seconds: Option<i32>,
    pub exec_action: Option<ExecAction>,
    pub http_get: Option<HttpGetAction>,
    pub tcp_socket: Option<TcpSocketAction>,
}

/// A container of a pod.
#[derive(Debug)]
pub struct KubeContainer {
    pub name: String,
    pub image: Option<String>,
    /// The resource requests, by resource name.
    pub resources: StrMap<String>,
    pub ports: Vec<ContainerPort>,
    pub command: Option<Vec<String>>,
    pub args: Option<Vec<String>>,
    pub env: Vec<EnvVar>,
    pub volume_mounts: Option<Vec<VolumeMount>>,
    pub liveness_probe: Option<Probe>,
    pub readiness_probe: Option<Probe>,
}

/// Where the files of a pod volume come from.
#[derive(Debug)]
pub enum VolumeSource {
    /// The configuration map of the given name.
    ConfigMap(String),
    /// An empty directory, of at most the given size.
    EmptyDir(Option<String>),
}

/// A volume of a pod.
#[derive(Debug)]
pub struct PodVolume {
    pub name: String,
    pub source: VolumeSource,
}

/// The specification of a pod.
#[derive(Debug)]
pub struct PodSpec {
    pub containers: Vec<KubeContainer>,
    pub image_pull_secrets: Option<Vec<String>>,
    pub node_selector: Option<StrMap<String>>,
    pub volumes: Option<Vec<PodVolume>>,
    pub restart_policy: Option<String>,
}

/// The mathematical form of a pod volume's source.
pub enum VolumeSourceView {
    ConfigMap(Seq<char>),
    EmptyDir(Option<Seq<char>>),
}

impl View for PodVolume {
    type V = (Seq<char>, VolumeSourceView);

    open spec fn view(&self) -> (Seq<char>, VolumeSourceView) {
        (
            self.name@,
            match self.source {
                VolumeSource::ConfigMap(n) => VolumeSourceView::ConfigMap(n@),
                VolumeSource::EmptyDir(s) => VolumeSourceView::EmptyDir(opt_view(s)),
            },
        )
    }
}

/// The header of a probe, as it is given.
pub open spec fn header_of(k: KubeHttpHeader, h: HttpHeader) -> bool {
    k.name@ == h.name@ && k.value@ == h.value@
}

/// An HTTP probe action: the path, the port and every header in order.
pub open spec fn http_get_of(a: HttpGetAction, g: HttpGet) -> bool {
    &&& opt_view(a.path) == Some(g.path@)
    &&& a.port == g.port
    &&& a.http_headers matches Some(hs) && hs@.len() == g.http_headers@.len() && forall|i: int|
        0 <= i < hs@.len() ==> header_of(#[trigger] hs@[i], g.http_headers@[i])
}

/// A probe as the health probe of a container describes it.
pub open spec fn probe_of(p: Probe, h: HealthProbe) -> bool {
    &&& p.failure_threshold == Some(h.failure_threshold)
    &&& p.period_seconds == Some(h.period_seconds)
    &&& p.timeout_seconds == Some(h.timeout_seconds)
    &&& p.success_threshold == Some(h.success_threshold)
    &&& p.initial_delay_seconds == Some(h.initial_delay_seconds)
    &&& match (p.exec_action, h.exec_probe) {
        (Some(a), Some(e)) => opt_views(a.command) == Some(views(e.command@)),
        (None, None) => true,
        _ => false,
    }
    &&& match (p.http_get, h.http_get) {
        (Some(a), Some(g)) => http_get_of(a, g),
        (None, None) => true,
        _ => false,
    }
    &&& match (p.tcp_socket, h.tcp_socket) {
        (Some(a), Some(t)) => a.port == t.port,
        (None, None) => true,
        _ => false,
    }
}

/// An optional probe as an optional health probe describes it.
pub open spec fn opt_probe_of(p: Option<Probe>, h: Option<HealthProbe>) -> bool {
    match (p, h) {
        (Some(a), Some(b)) => probe_of(a, b),
        (None, None) => true,
        _ => false,
    }
}

/// The port of a container in a pod, as the port of the component describes it.
pub open spec fn container_port_of(k: ContainerPort, p: Port) -> bool {
    k.container_port == p.container_port && opt_view(k.name) == Some(p.name@) && opt_view(k.protocol) == Some(
        protocol_name(p.protocol),
    )
}

/// An environment variable of a container in a pod.
pub open spec fn env_var_of(k: EnvVar, e: Env, params: Map<Seq<char>, Json>) -> bool {
    k.name@ == e.name@ && opt_view(k.value) == spec_resolve_value(params, opt_view(e.from_param), opt_view(e.value))
}

/// A container of a pod, as the container of the component describes it.
pub open spec fn container_of(k: KubeContainer, c: Container, params: Map<Seq<char>, Json>) -> bool {
    &&& k.name@ == c.name@
    &&& opt_view(k.image) == Some(c.image@)
    &&& k.resources@ == spec_requests(c.resources)
    &&& k.ports@.len() == c.ports@.len()
    &&& (forall|i: int| 0 <= i < k.ports@.len() ==> container_port_of(#[trigger] k.ports@[i], c.ports@[i]))
    &&& opt_views(k.command) == opt_views(c.cmd)
    &&& opt_views(k.args) == opt_views(c.args)
    &&& k.env@.len() == c.env@.len()
    &&& (forall|i: int| 0 <= i < k.env@.len() ==> env_var_of(#[trigger] k.env@[i], c.env@[i], params))
    &&& mounts_of(k.volume_mounts, c)
    &&& opt_probe_of(k.liveness_probe, c.liveness_probe)
    &&& opt_probe_of(k.readiness_probe, c.readiness_probe)
}

/// The volumes a container brings to its pod: a configuration map volume for
/// each config file, named by the container and the file's position, then
/// an empty directory for each volume.
pub open spec fn container_volumes(c: Container) -> Seq<(Seq<char>, VolumeSourceView)> {
    Seq::new(
        configs_of(c).len(),
        |i: int| (c.name@ + decimal(i as nat), VolumeSourceView::ConfigMap(c.name@ + decimal(i as nat))),
    ) + Seq::new(
        volumes_of(c).len(),
        |i: int|
            (
                volumes_of(c)[i].name@,
                VolumeSourceView::EmptyDir(
                    match volumes_of(c)[i].disk {
                        Some(d) => Some(d.required@),
                        None => None,
                    },
                ),
            ),
    )
}

/// The volumes of a pod: those of each container in turn.
pub open spec fn pod_volumes(cs: Seq<Container>) -> Seq<(Seq<char>, VolumeSourceView)>
    decreases cs.len(),
{
    if cs.len() == 0 {
        Seq::empty()
    } else {
        pod_volumes(cs.drop_last()) + container_volumes(cs.last())
    }
}

/// Every config file of every container has a parent directory.
pub open spec fn all_config_paths_have_parents(cs: Seq<Container>) -> bool {
    forall|i: int| 0 <= i < cs.len() ==> config_paths_have_parents(#[trigger] cs[i])
}

/// A pod specification as a component describes it: its containers, image
/// pull secrets, node selector and volumes, with the given restart policy.
pub open spec fn pod_spec_of(p: PodSpec, c: Component, params: Map<Seq<char>, Json>, restart: Option<Seq<char>>) -> bool {
    &&& p.containers@.len() == c.containers@.len()
    &&& forall|i: int|
        0 <= i < p.containers@.len() ==> container_of(#[trigger] p.containers@[i], c.containers@[i], params)
    &&& opt_views(p.image_pull_secrets) == Some(c.containers@.filter_map(|x: Container| pull_secret_of(x)))
    &&& opt_view(p.node_selector) == spec_node_selector(opt_view(c.os_type), opt_view(c.arch))
    &&& p.volumes matches Some(v) && views(v@) == pod_volumes(c.containers@)
    &&& opt_view(p.restart_policy) == restart
}

impl HttpHeader {
    pub fn to_kube_header(&self) -> (h: KubeHttpHeader)
        ensures
            header_of(h, *self),
    {
        KubeHttpHeader { name: self.name.clone(), value: self.value.clone() }
    }
}

impl HttpGet {
    pub fn to_http_get_action(&self) -> (a: HttpGetAction)
        ensures
            http_get_of(a, *self),
    {
        let mut headers: Vec<KubeHttpHeader> = Vec::new();
        let n = self.http_headers.len();
        let mut i: usize = 0;
        while i < n
            invariant
                n == self.http_headers@.len(),
                i <= n,
                headers@.len() == i,
                forall|j: int| 0 <= j < i ==> header_of(#[trigger] headers@[j], self.http_headers@[j]),
            decreases n - i,
        {
            headers.push(self.http_headers[i].to_kube_header());
            i = i + 1;
        }
        HttpGetAction { http_headers: Some(headers), path: Some(self.path.clone()), port: self.port }
    }
}

impl TcpSocket {
    pub fn to_tcp_socket_action(&self) -> (a: TcpSocketAction)
        ensures
            a.port == self.port,
    {
        TcpSocketAction { port: self.port }
    }
}

fn copy_strings(v: &Vec<String>) -> (r: Vec<String>)
    ensures
        views(r@) == views(v@),
{
    let mut out: Vec<String> = Vec::new();
    let n = v.len();
    let mut i: usize = 0;
    while i < n
        invariant
            n == v@.len(),
            i <= n,
            out@.len() == i,
            forall|j: int| 0 <= j < i ==> (#[trigger] out@[j])@ == v@[j]@,
        decreases n - i,
    {
        out.push(v[i].clone());
        i = i + 1;
    }
    assert(views(out@) =~= views(v@));
    out
}

fn copy_opt_strings(v: &Option<Vec<String>>) -> (r: Option<Vec<String>>)
    ensures
        opt_views(r) == opt_views(*v),
{
    match v {
        Some(x) => Some(copy_strings(x)),
        None => None,
    }
}

impl HealthProbe {
    /// The probe the health probe describes.
    pub fn to_probe(&self) -> (p: Probe)
        ensures
            probe_of(p, *self),
    {
        Probe {
            failure_threshold: Some(self.failure_threshold),
            period_seconds: Some(self.period_seconds),
            timeout_seconds: Some(self.timeout_seconds),
            success_threshold: Some(self.success_threshold),
            initial_delay_seconds: Some(self.initial_delay_seconds),
            exec_action: match &self.exec_probe {
                Some(c) => Some(ExecAction { command: Some(copy_strings(&c.command)) }),
                None => None,
            },
            http_get: match &self.http_get {
                Some(a) => Some(a.to_http_get_action()),
                None => None,
            },
            tcp_socket: match &self.tcp_socket {
                Some(t) => Some(t.to_tcp_socket_action()),
                None => None,
            },
        }
    }
}

fn opt_probe(h: &Option<HealthProbe>) -> (p: Option<Probe>)
    ensures
        opt_probe_of(p, *h),
{
    match h {
        Some(x) => Some(x.to_probe()),
        None => None,
    }
}

impl Container {
    /// The container of a pod that this container becomes.
    pub fn to_kube_container(&self, resolved_vals: &ResolvedVals) -> (k: KubeContainer)
        requires
            config_paths_have_parents(*self),
        ensures
            container_of(k, *self, resolved_vals@),
    {
        let mut ports: Vec<ContainerPort> = Vec::new();
        let n = self.ports.len();
        let mut i: usize = 0;
        while i < n
            invariant
                n == self.ports@.len(),
                i <= n,
                ports@.len() == i,
                forall|j: int| 0 <= j < i ==> container_port_of(#[trigger] ports@[j], self.ports@[j]),
            decreases n - i,
        {
            ports.push(self.ports[i].to_container_port());
            i = i + 1;
        }
        let mut env: Vec<EnvVar> = Vec::new();
        let m = self.env.len();
        let mut i: usize = 0;
        while i < m
            invariant
                m == self.env@.len(),
                i <= m,
                env@.len() == i,
                forall|j: int| 0 <= j < i ==> env_var_of(#[trigger] env@[j], self.env@[j], resolved_vals@),
            decreases m - i,
        {
            env.push(self.env[i].to_env_var(resolved_vals));
            i = i + 1;
        }
        KubeContainer {
            name: self.name.clone(),
            image: Some(self.image.clone()),
            resources: self.resources.to_resource_requirements(),
            ports,
            command: copy_opt_strings(&self.cmd),
            args: copy_opt_strings(&self.args),
            env,
            volume_mounts: self.volume_mounts(),
            liveness_probe: opt_probe(&self.liveness_probe),
            readiness_probe: opt_probe(&self.readiness_probe),
        }
    }

    /// The volumes the container brings to its pod.
    pub fn to_pod_volumes(&self) -> (r: Vec<PodVolume>)
        ensures
            views(r@) == container_volumes(*self),
    {
        let mut vols: Vec<PodVolume> = Vec::new();
        let nc: usize = match &self.config {
            Some(c) => c.len(),
            None => 0,
        };
        let mut i: usize = 0;
        while i < nc
            invariant
                nc == configs_of(*self).len(),
                i <= nc,
                vols@.len() == i,
                forall|j: int|
                    0 <= j < i ==> (#[trigger] vols@[j])@ == (
                        self.name@ + decimal(j as nat),
                        VolumeSourceView::ConfigMap(self.name@ + decimal(j as nat)),
                    ),
            decreases nc - i,
        {
            let name = self.name.clone().concat(usize_to_string(i).as_str());
            vols.push(PodVolume { name: name.clone(), source: VolumeSource::ConfigMap(name) });
            i = i + 1;
        }
        match &self.resources.volumes {
            Some(vs) => {
                let nv = vs.len();
                let mut k: usize = 0;
                while k < nv
                    invariant
                        nv == vs@.len(),
                        vs@ == volumes_of(*self),
                        nc == configs_of(*self).len(),
                        k <= nv,
                        vols@.len() == nc + k,
                        forall|j: int|
                            0 <= j < nc ==> (#[trigger] vols@[j])@ == (
                                self.name@ + decimal(j as nat),
                                VolumeSourceView::ConfigMap(self.name@ + decimal(j as nat)),
                            ),
                        forall|j: int|
                            0 <= j < k ==> (#[trigger] vols@[nc + j])@ == (
                                vs@[j].name@,
                                VolumeSourceView::EmptyDir(
                                    match vs@[j].disk {
                                        Some(d) => Some(d.required@),
                                        None => None,
                                    },
                                ),
                            ),
                    decreases nv - k,
                {
                    let v = &vs[k];
                    let size = match &v.disk {
                        Some(d) => Some(d.required.clone()),
                        None => None,
                    };
                    vols.push(PodVolume { name: v.name.clone(), source: VolumeSource::EmptyDir(size) });
                    k = k + 1;
                }
                proof {
                    let cv = container_volumes(*self);
                    assert forall|j: int| 0 <= j < vols@.len() implies (#[trigger] views(vols@)[j]) == cv[j] by {
                        if j >= nc {
                            assert(vols@[nc + (j - nc)] == vols@[j]);
                        }
                    }
                    assert(views(vols@) =~= cv);
                }
            },
            None => {
                proof {
                    assert(views(vols@) =~= container_volumes(*self));
                }
            },
        }
        vols
    }
}

impl Component {
    /// The containers of the pod, one for each container of the component.
    pub fn to_containers(&self, resolved_vals: &ResolvedVals) -> (r: Vec<KubeContainer>)
        requires
            all_config_paths_have_parents(self.containers@),
        ensures
            r@.len() == self.containers@.len(),
            forall|i: int| 0 <= i < r@.len() ==> container_of(#[trigger] r@[i], self.containers@[i], resolved_vals@),
    {
        let mut out: Vec<KubeContainer> = Vec::new();
        let n = self.containers.len();
        let mut i: usize = 0;
        while i < n
            invariant
                n == self.containers@.len(),
                all_config_paths_have_parents(self.containers@),
                i <= n,
                out@.len() == i,
                forall|j: int| 0 <= j < i ==> container_of(#[trigger] out@[j], self.containers@[j], resolved_vals@),
            decreases n - i,
        {
            assert(config_paths_have_parents(self.containers@[i as int]));
            out.push(self.containers[i].to_kube_container(resolved_vals));
            i = i + 1;
        }
        out
    }

    /// The volumes of the pod: those of each container in turn.
    pub fn to_pod_volumes(&self) -> (r: Vec<PodVolume>)
        ensures
            views(r@) == pod_volumes(self.containers@),
    {
        let mut vols: Vec<PodVolume> = Vec::new();
        let n = self.containers.len();
        let mut i: usize = 0;
        while i < n
            invariant
                n == self.containers@.len(),
                i <= n,
                views(vols@) == pod_volumes(self.containers@.subrange(0, i as int)),
            decreases n - i,
        {
            let more = self.containers[i].to_pod_volumes();
            proof {
                let s = self.containers@.subrange(0, i + 1);
                assert(s.drop_last() =~= self.containers@.subrange(0, i as int));
                assert(s.last() == self.containers@[i as int]);
            }
            let ghost before = vols@;
            let mut more = more;
            vols.append(&mut more);
            proof {
                assert(views(vols@) =~= views(before) + container_volumes(self.containers@[i as int]));
            }
            i = i + 1;
        }
        proof {
            assert(self.containers@.subrange(0, n as int) =~= self.containers@);
        }
        vols
    }

    /// Whether every config file path of every container has a parent
    /// directory, so that the pod can be made.
    pub fn config_paths_resolvable(&self) -> (b: bool)
        ensures
            b == all_config_paths_have_parents(self.containers@),
    {
        let n = self.containers.len();
        let mut i: usize = 0;
        while i < n
            invariant
                n == self.containers@.len(),
                i <= n,
                forall|j: int| 0 <= j < i ==> config_paths_have_parents(#[trigger] self.containers@[j]),
            decreases n - i,
        {
            if !self.containers[i].config_paths_resolvable() {
                return false;
            }
            i = i + 1;
        }
        true
    }

    /// The pod specification, where every config file path has a parent
    /// directory; none otherwise.
    pub fn try_to_pod_spec(&self, param_vals: &ResolvedVals) -> (r: Option<PodSpec>)
        ensures
            match r {
                Some(p) => all_config_paths_have_parents(self.containers@) && pod_spec_of(p, *self, param_vals@, None),
                None => !all_config_paths_have_parents(self.containers@),
            },
    {
        if self.config_paths_resolvable() {
            Some(self.to_pod_spec(param_vals))
        } else {
            None
        }
    }

    /// The pod specification: the containers, the image pull secrets, the
    /// node selector and the volumes of the component.
    pub fn to_pod_spec(&self, param_vals: &ResolvedVals) -> (p: PodSpec)
        requires
            all_config_paths_have_parents(self.containers@),
        ensures
            pod_spec_of(p, *self, param_vals@, None),
    {
        let containers = self.to_containers(param_vals);
        let secrets = self.image_pull_secrets();
        PodSpec {
            containers,
            image_pull_secrets: Some(secrets),
            node_selector: self.to_node_selector(),
            volumes: Some(self.to_pod_volumes()),
            restart_policy: None,
        }
    }

    /// The pod specification with a restart policy.
    pub fn to_pod_spec_with_policy(&self, param_vals: &ResolvedVals, restart_policy: String) -> (p: PodSpec)
        requires
            all_config_paths_have_parents(self.containers@),
        ensures
            pod_spec_of(p, *self, param_vals@, Some(restart_policy@)),
    {
        let mut pod_spec = self.to_pod_spec(param_vals);
        pod_spec.restart_policy = Some(restart_policy);
        pod_spec
    }
}

} // verus!
