//! Workload types: what a component becomes in the cluster, and the
//! decisions the workload types make about their objects.
use vstd::prelude::*;
use crate::instigator::OwnerReference;
use crate::json::{Json, JsonValue, spec_get, spec_as_str};
use crate::schematic::GroupVersionKind;
use crate::schematic::GvkError;
use crate::schematic::component::{
    Component, Container, ServicePort, WorkloadSetting, configs_evaluable, spec_evaluate_configs,
    first_container_with_port,
};
use crate::schematic::parameter::resolve_value;
use crate::strings::{str_eq, decimal};
use crate::strmap::{StrMap, DeepCopy, opt_view, opt_views, opt_vec_copy};

pub mod extended_workload;
pub mod workload_builder;
pub mod server;
pub mod task;
pub mod worker;

pub use crate::workload_type::server::{ReplicatedServer, SingletonServer};
pub use crate::workload_type::task::{ReplicatedTask, SingletonTask};
pub use crate::workload_type::worker::{ReplicatedWorker, SingletonWorker};

verus! {

pub const OAM_API_VERSION: &'static str = "core.oam.dev/v1alpha1";

/// Server is a replicable server
pub const SERVER_NAME: &'static str = "core.oam.dev/v1alpha1.Server";
/// SingletonServer is a kind of Server that can't be replicated
pub const SINGLETON_SERVER_NAME: &'static str = "core.oam.dev/v1alpha1.SingletonServer";
/// SingletonTask is a task that cannot be replicated
pub const SINGLETON_TASK_NAME: &'static str = "core.oam.dev/v1alpha1.SingletonTask";
/// Task just means a replicated task which will replace ReplicatedTask
pub const TASK_NAME: &'static str = "core.oam.dev/v1alpha1.Task";
/// Singleton worker is a Worker that cannot be replicated
pub const SINGLETON_WORKER: &'static str = "core.oam.dev/v1alpha1.SingletonWorker";
/// Worker is daemon process that does not listen on the network
pub const WORKER_NAME: &'static str = "core.oam.dev/v1alpha1.Worker";

/// Parameter values of a workload, by name.
pub type ParamMap = StrMap<JsonValue>;

/// Labels or annotations, by key.
pub type Labels = StrMap<String>;

/// KubeName describes anything that can produce its own Kubernetes name.
///
/// Most Kubernetes objects have their own name, and workload types, traits, and
/// other OAM objects are capable of autogenerating their own names in a
/// repeatable fashion. This trait describes the ability to repeatably create
/// a name.
///
/// KubeNames implementations should produce the same name for a given release. That
/// is, names are not random.
pub trait KubeName {
    fn kube_name(&self) -> String;
}

/// WorkloadMetadata contains common data about a workload.
///
/// Individual workload types can embed this field.
pub struct WorkloadMetadata {
    /// Name is the name of the release
    pub name: String,
    /// Component name is the name of this particular workload component
    pub component_name: String,
    /// Instance name is the name of this component's instance (unique name)
    pub instance_name: String,
    /// Namespace is the Kubernetes namespace into which this component should
    /// be placed.
    pub namespace: String,
    /// Definition is the definition of the component.
    pub definition: Component,
    /// Params contains a map of parameters that were supplied for this workload
    pub params: ParamMap,
    /// Owner Ref is the Kubernetes owner reference
    ///
    /// This tells Kubernetes what object "owns" this workload and is responsible
    /// for cleaning it up.
    pub owner_ref: Option<Vec<OwnerReference>>,
    pub annotations: Option<Labels>,
}

/// The labels of a workload's objects.
pub open spec fn spec_workload_labels(name: Seq<char>, workload_type: Seq<char>, instance_name: Seq<char>) -> Map<Seq<char>, Seq<char>> {
    Map::empty().insert("app.kubernetes.io/name"@, name).insert("oam.dev/workload-type"@, workload_type).insert(
        "oam.dev/instance-name"@,
        instance_name,
    )
}

/// The labels that select a workload's pods.
pub open spec fn spec_select_labels(name: Seq<char>, instance_name: Seq<char>) -> Map<Seq<char>, Seq<char>> {
    Map::empty().insert("app.kubernetes.io/name"@, name).insert("oam.dev/instance-name"@, instance_name)
}

/// The metadata of a Kubernetes object.
#[derive(Debug)]
pub struct ObjectMeta {
    pub name: String,
    pub labels: Labels,
    pub owner_references: Option<Vec<OwnerReference>>,
}

/// The metadata of an object: its name, labels and owners.
pub fn form_metadata(name: String, labels: Labels, owner_references: Option<Vec<OwnerReference>>) -> (m: ObjectMeta)
    ensures
        m.name == name,
        m.labels == labels,
        m.owner_references == owner_references,
{
    ObjectMeta { name, labels, owner_references }
}

/// A configuration map.
#[derive(Debug)]
pub struct ConfigMap {
    pub name: String,
    pub data: StrMap<String>,
    pub labels: Option<Labels>,
    pub owner_references: Option<Vec<OwnerReference>>,
}

/// The owners of an object, as a sequence.
pub open spec fn owners_view(o: Option<Vec<OwnerReference>>) -> Option<Seq<OwnerReference>> {
    match o {
        Some(v) => Some(v@),
        None => None,
    }
}

pub(crate) fn copy_owner_refs(o: &Option<Vec<OwnerReference>>) -> (r: Option<Vec<OwnerReference>>)
    ensures
        owners_view(r) == owners_view(*o),
{
    match o {
        Some(v) => {
            let mut out: Vec<OwnerReference> = Vec::new();
            let n = v.len();
            let mut i: usize = 0;
            while i < n
                invariant
                    n == v@.len(),
                    i <= n,
                    out@.len() == i,
                    forall|j: int| 0 <= j < i ==> out@[j] == v@[j],
                decreases n - i,
            {
                let x = &v[i];
                out.push(
                    OwnerReference {
                        api_version: x.api_version.clone(),
                        kind: x.kind.clone(),
                        name: x.name.clone(),
                        uid: x.uid.clone(),
                        controller: x.controller,
                        block_owner_deletion: x.block_owner_deletion,
                    },
                );
                i = i + 1;
            }
            assert(out@ =~= v@);
            Some(out)
        },
        None => None,
    }
}

/// One configuration map per configuration, in order of name, each with the
/// owners and labels given.
pub fn to_config_maps(
    configs: &StrMap<StrMap<String>>,
    owner_ref: &Option<Vec<OwnerReference>>,
    labels: &Option<Labels>,
) -> (r: Vec<ConfigMap>)
    ensures
        r@.len() == configs.key_seq().len(),
        r@.len() == configs@.len(),
        forall|i: int|
            0 <= i < r@.len() ==> (#[trigger] r@[i]).name@ == configs.key_seq()[i] && r@[i].data@
                == configs@[configs.key_seq()[i]] && owners_view(r@[i].owner_references) == owners_view(*owner_ref)
                && opt_view(r@[i].labels) == opt_view(*labels),
{
    let mut out: Vec<ConfigMap> = Vec::new();
    let n = configs.len();
    let mut i: usize = 0;
    while i < n
        invariant
            n == configs.key_seq().len(),
            i <= n,
            out@.len() == i,
            forall|j: int|
                0 <= j < i ==> (#[trigger] out@[j]).name@ == configs.key_seq()[j] && out@[j].data@
                    == configs@[configs.key_seq()[j]] && owners_view(out@[j].owner_references) == owners_view(*owner_ref)
                    && opt_view(out@[j].labels) == opt_view(*labels),
        decreases n - i,
    {
        let key = configs.key_at(i);
        let values = configs.value_at(i);
        out.push(
            ConfigMap {
                name: key.clone(),
                data: values.copy(),
                labels: match labels {
                    Some(l) => Some(l.copy()),
                    None => None,
                },
                owner_references: copy_owner_refs(owner_ref),
            },
        );
        i = i + 1;
    }
    out
}

/// The setting of a workload: the value of the parameter it names, where
/// that is given, and its default otherwise.
pub open spec fn spec_setting_value(s: WorkloadSetting, params: Map<Seq<char>, Json>) -> Option<Json> {
    match s.from_param {
        Some(p) => if params.contains_key(p@) {
            Some(params[p@])
        } else {
            opt_view(s.default)
        },
        None => opt_view(s.default),
    }
}

/// The value of the first workload setting of a workload with a name.
pub open spec fn spec_workload_setting(m: WorkloadMetadata, key: Seq<char>) -> Option<Json> {
    match first_setting(m.definition.workload_settings@, key) {
        Some(i) => spec_setting_value(m.definition.workload_settings@[i], m.params@),
        None => None,
    }
}

/// The position of the first setting with a name.
pub open spec fn first_setting(s: Seq<WorkloadSetting>, key: Seq<char>) -> Option<int>
    decreases s.len(),
{
    if s.len() == 0 {
        None
    } else if s[0].name@ == key {
        Some(0)
    } else {
        match first_setting(s.subrange(1, s.len() as int), key) {
            Some(i) => Some(i + 1),
            None => None,
        }
    }
}

pub(crate) proof fn lemma_first_setting(s: Seq<WorkloadSetting>, key: Seq<char>, i: int)
    requires
        0 <= i <= s.len(),
        forall|j: int| 0 <= j < i ==> s[j].name@ != key,
    ensures
        i < s.len() && s[i].name@ == key ==> first_setting(s, key) == Some(i),
        i == s.len() ==> first_setting(s, key) is None,
    decreases i,
{
    if i > 0 {
        let rest = s.subrange(1, s.len() as int);
        assert forall|j: int| 0 <= j < i - 1 implies rest[j].name@ != key by {
            assert(rest[j] == s[j + 1]);
        }
        lemma_first_setting(rest, key, i - 1);
        if i < s.len() {
            assert(rest[i - 1] == s[i]);
        }
    }
}

/// The configuration maps of a workload: one per evaluated config file, with
/// its data, the workload's owners, and the labels of the workload type.
pub open spec fn config_maps_of(r: Seq<ConfigMap>, meta: WorkloadMetadata, workload_type: Seq<char>) -> bool {
    let configs = spec_evaluate_configs(meta.definition.containers@, meta.params@);
    &&& r.len() == configs.len()
    &&& forall|i: int|
        0 <= i < r.len() ==> configs.contains_key((#[trigger] r[i]).name@) && r[i].data@ == configs[r[i].name@]
            && owners_view(r[i].owner_references) == owners_view(meta.owner_ref) && (r[i].labels matches Some(l) && l@
            == spec_workload_labels(meta.name@, workload_type, meta.instance_name@))
}

impl WorkloadMetadata {
    /// The labels of the workload's objects.
    pub fn labels(&self, workload_type: &str) -> (labels: Labels)
        ensures
            labels@ == spec_workload_labels(self.name@, workload_type@, self.instance_name@),
    {
        let mut labels: Labels = StrMap::new();
        labels.insert("app.kubernetes.io/name".to_string(), self.name.clone());
        labels.insert("oam.dev/workload-type".to_string(), workload_type.to_string());
        labels.insert("oam.dev/instance-name".to_string(), self.instance_name.clone());
        labels
    }

    /// The labels that select the workload's pods.
    pub fn select_labels(&self) -> (labels: Labels)
        ensures
            labels@ == spec_select_labels(self.name@, self.instance_name@),
    {
        let mut labels: Labels = StrMap::new();
        labels.insert("app.kubernetes.io/name".to_string(), self.name.clone());
        labels.insert("oam.dev/instance-name".to_string(), self.instance_name.clone());
        labels
    }

    /// The name of the workload's objects: the instance name.
    pub fn kube_name(&self) -> (n: String)
        ensures
            n@ == self.instance_name@,
    {
        self.instance_name.clone()
    }

    /// The configuration maps of the workload, labelled for its type.
    pub fn to_config_maps(&self, workload_type: &str) -> (r: Vec<ConfigMap>)
        requires
            configs_evaluable(self.definition.containers@, self.params@),
        ensures
            config_maps_of(r@, *self, workload_type@),
    {
        let configs = self.definition.evaluate_configs(&self.params);
        let labels = Some(self.labels(workload_type));
        let r = to_config_maps(&configs, &self.owner_ref, &labels);
        proof {
            configs.lemma_dom();
            assert forall|i: int| 0 <= i < r@.len() implies configs@.contains_key((#[trigger] r@[i]).name@) by {
                assert(configs.key_seq().contains(configs.key_seq()[i]));
            }
        }
        r
    }

    /// The configuration maps of the workload, or `None` where a config file
    /// has no file name or no value.
    pub fn try_to_config_maps(&self, workload_type: &str) -> (r: Option<Vec<ConfigMap>>)
        ensures
            r is Some <==> configs_evaluable(self.definition.containers@, self.params@),
            r matches Some(v) ==> config_maps_of(v@, *self, workload_type@),
    {
        match self.definition.try_evaluate_configs(&self.params) {
            Some(_) => Some(self.to_config_maps(workload_type)),
            None => None,
        }
    }

    /// The value of a workload setting, by name.
    pub fn get_workload_setting(&self, key: &str) -> (r: Option<JsonValue>)
        ensures
            opt_view(r) == spec_workload_setting(*self, key@),
    {
        let settings = &self.definition.workload_settings;
        let n = settings.len();
        let mut i: usize = 0;
        while i < n
            invariant
                n == settings@.len(),
                settings@ == self.definition.workload_settings@,
                i <= n,
                forall|j: int| 0 <= j < i ==> settings@[j].name@ != key@,
            decreases n - i,
        {
            if str_eq(settings[i].name.as_str(), key) {
                proof {
                    lemma_first_setting(settings@, key@, i as int);
                }
                let item = &settings[i];
                let from_param: Option<JsonValue> = match &item.from_param {
                    Some(p) => match self.params.get(p.as_str()) {
                        Some(v) => Some(v.deep_copy()),
                        None => None,
                    },
                    None => None,
                };
                return match from_param {
                    Some(v) => Some(v),
                    None => match &item.default {
                        Some(d) => Some(d.deep_copy()),
                        None => None,
                    },
                };
            }
            i = i + 1;
        }
        proof {
            lemma_first_setting(settings@, key@, n as int);
        }
        None
    }
}

/// The state of a deployment from its replica counts.
pub open spec fn spec_deployment_state(replicas: Option<i32>, available: Option<i32>, unavailable: Option<i32>) -> Seq<char> {
    let r = match replicas { Some(x) => x, None => 0 };
    let a = match available { Some(x) => x, None => 0 };
    let u = match unavailable { Some(x) => x, None => 0 };
    if a == r {
        "running"@
    } else if u > 0 {
        "unavailable"@
    } else {
        "updating"@
    }
}

/// A count a status may leave out, zero where it does.
pub open spec fn count_or_zero(c: Option<i32>) -> int {
    match c {
        Some(x) => x as int,
        None => 0,
    }
}

/// A deployment is running exactly when all its replicas are available;
/// otherwise it is unavailable where some replicas are unavailable, and
/// updating where none is.
pub proof fn lemma_deployment_states(replicas: Option<i32>, available: Option<i32>, unavailable: Option<i32>)
    ensures
        spec_deployment_state(replicas, available, unavailable) == "running"@ <==> count_or_zero(available)
            == count_or_zero(replicas),
        count_or_zero(available) != count_or_zero(replicas) && count_or_zero(unavailable) > 0 ==> spec_deployment_state(
            replicas,
            available,
            unavailable,
        ) == "unavailable"@,
        count_or_zero(available) != count_or_zero(replicas) && count_or_zero(unavailable) <= 0 ==> spec_deployment_state(
            replicas,
            available,
            unavailable,
        ) == "updating"@,
{
    reveal_strlit("running");
    reveal_strlit("unavailable");
    reveal_strlit("updating");
    assert("running"@[0] != "unavailable"@[0]);
    assert("running"@[0] != "updating"@[0]);
}

/// The state of a deployment: running where all replicas are available,
/// unavailable where some are not, updating otherwise.
pub fn deployment_state(replicas: Option<i32>, available: Option<i32>, unavailable: Option<i32>) -> (s: String)
    ensures
        s@ == spec_deployment_state(replicas, available, unavailable),
        s@ == "running"@ <==> count_or_zero(available) == count_or_zero(replicas),
        count_or_zero(available) != count_or_zero(replicas) && count_or_zero(unavailable) > 0 ==> s@ == "unavailable"@,
        count_or_zero(available) != count_or_zero(replicas) && count_or_zero(unavailable) <= 0 ==> s@ == "updating"@,
{
    proof {
        lemma_deployment_states(replicas, available, unavailable);
    }
    let replica = match replicas { Some(x) => x, None => 0 };
    let available_replicas = match available { Some(x) => x, None => 0 };
    let unavailable_replicas = match unavailable { Some(x) => x, None => 0 };
    if available_replicas == replica {
        "running".to_string()
    } else if unavailable_replicas > 0 {
        "unavailable".to_string()
    } else {
        "updating".to_string()
    }
}

/// The state of a stateful set: running where all replicas are ready.
pub fn statefulset_state(replicas: i32, ready: Option<i32>) -> (s: String)
    ensures
        s@ == if (match ready { Some(x) => x, None => 0 }) == replicas { "running"@ } else { "updating"@ },
{
    let available_replicas = match ready { Some(x) => x, None => 0 };
    if available_replicas == replicas {
        "running".to_string()
    } else {
        "updating".to_string()
    }
}

/// The state of a job: running while pods are active, failed where some
/// failed, succeeded otherwise.
pub fn job_state(active: Option<i32>, failed: Option<i32>) -> (s: String)
    ensures
        s@ == if active matches Some(a) && a > 0 {
            "running"@
        } else if failed matches Some(f) && f > 0 {
            "failed"@
        } else {
            "succeeded"@
        },
{
    match active {
        Some(sts) => if sts > 0 {
            return "running".to_string();
        },
        None => {},
    }
    match failed {
        Some(sts) => if sts > 0 {
            return "failed".to_string();
        },
        None => {},
    }
    "succeeded".to_string()
}

/// The state of a service: created once it has a status.
pub fn service_state(has_status: bool) -> (s: String)
    ensures
        s@ == if has_status { "created"@ } else { "not existed"@ },
{
    if has_status {
        "created".to_string()
    } else {
        "not existed".to_string()
    }
}

/// The error of a worker that declares a port.
#[derive(Debug, PartialEq)]
pub struct WorkerPortError {
    pub container: String,
}

impl WorkerPortError {
    pub fn to_string(&self) -> (s: String)
        ensures
            s@ == "Worker container named "@ + self.container@ + " has a port declared"@,
    {
        "Worker container named ".to_string().concat(self.container.as_str()).concat(" has a port declared")
    }
}

/// A worker does not listen on the network: none of its containers may
/// declare a port. The error names the first that does.
pub fn validate_worker(meta: &WorkloadMetadata) -> (r: Result<(), WorkerPortError>)
    ensures
        match first_container_with_port(meta.definition.containers@) {
            Some(c) => r matches Err(e) && e.container@ == meta.definition.containers@[c].name@,
            None => r is Ok,
        },
{
    match meta.definition.listening_port() {
        Some(_) => {
            let cs = &meta.definition.containers;
            let n = cs.len();
            let mut i: usize = 0;
            while i < n
                invariant
                    n == cs@.len(),
                    cs@ == meta.definition.containers@,
                    i <= n,
                    first_container_with_port(cs@) is Some,
                    forall|j: int| 0 <= j < i ==> cs@[j].ports@.len() == 0,
                decreases n - i,
            {
                if cs[i].ports.len() > 0 {
                    proof {
                        crate::schematic::component::lemma_first_container_with_port(cs@, i as int);
                    }
                    return Err(WorkerPortError { container: cs[i].name.clone() });
                }
                i = i + 1;
            }
            proof {
                crate::schematic::component::lemma_first_container_with_port(cs@, n as int);
            }
            Ok(())
        },
        None => Ok(()),
    }
}

/// The workload types.
#[derive(Debug)]
pub enum WorkloadKind {
    ReplicatedServer,
    SingletonServer,
    SingletonTask,
    ReplicatedTask,
    SingletonWorker,
    ReplicatedWorker,
    OpenFaaS,
    /// A workload type that is a custom resource of the given group, version
    /// and kind.
    Others(GroupVersionKind),
}

/// Why a workload type cannot be loaded.
#[derive(Debug, PartialEq)]
pub enum UnknownWorkload {
    /// The type is not of the form GROUP/VERSION.KIND.
    BadType(GvkError),
    /// A custom workload type needs a `spec` workload setting.
    MissingSpec,
}

/// A component has a workload setting of this name.
pub open spec fn has_setting(c: Component, key: Seq<char>) -> bool {
    first_setting(c.workload_settings@, key) is Some
}

/// The workload kind a workload type names.
pub open spec fn spec_workload_kind(t: Seq<char>) -> Option<int> {
    if t == "core.oam.dev/v1alpha1.Server"@ {
        Some(0)
    } else if t == "core.oam.dev/v1alpha1.SingletonServer"@ {
        Some(1)
    } else if t == "core.oam.dev/v1alpha1.SingletonTask"@ {
        Some(2)
    } else if t == "core.oam.dev/v1alpha1.Task"@ {
        Some(3)
    } else if t == "core.oam.dev/v1alpha1.SingletonWorker"@ {
        Some(4)
    } else if t == "core.oam.dev/v1alpha1.Worker"@ {
        Some(5)
    } else if t == "openfaas.com/v1alpha2.Function"@ {
        Some(6)
    } else {
        None
    }
}

/// The position of a built-in workload kind.
pub open spec fn kind_index(k: WorkloadKind) -> Option<int> {
    match k {
        WorkloadKind::ReplicatedServer => Some(0),
        WorkloadKind::SingletonServer => Some(1),
        WorkloadKind::SingletonTask => Some(2),
        WorkloadKind::ReplicatedTask => Some(3),
        WorkloadKind::SingletonWorker => Some(4),
        WorkloadKind::ReplicatedWorker => Some(5),
        WorkloadKind::OpenFaaS => Some(6),
        WorkloadKind::Others(_) => None,
    }
}

pub(crate) fn has_spec_setting(c: &Component) -> (b: bool)
    ensures
        b == has_setting(*c, "spec"@),
{
    let settings = &c.workload_settings;
    let n = settings.len();
    let mut i: usize = 0;
    while i < n
        invariant
            n == settings@.len(),
            settings@ == c.workload_settings@,
            i <= n,
            forall|j: int| 0 <= j < i ==> settings@[j].name@ != "spec"@,
        decreases n - i,
    {
        if str_eq(settings[i].name.as_str(), "spec") {
            proof {
                lemma_first_setting(settings@, "spec"@, i as int);
            }
            return true;
        }
        i = i + 1;
    }
    proof {
        lemma_first_setting(settings@, "spec"@, n as int);
    }
    false
}

/// Which workload type a component is: one of the built-in types, or a
/// custom resource named by its workload type, which must carry a `spec`
/// setting.
pub fn load_workload_type(component: &Component) -> (r: Result<WorkloadKind, UnknownWorkload>)
    ensures
        match spec_workload_kind(component.workload_type@) {
            Some(i) => r matches Ok(k) && kind_index(k) == Some(i),
            None => match crate::schematic::spec_parse_gvk(component.workload_type@) {
                Err(e) => r == Err::<WorkloadKind, UnknownWorkload>(UnknownWorkload::BadType(e)),
                Ok((g, v, k)) => if has_setting(*component, "spec"@) {
                    r matches Ok(WorkloadKind::Others(gvk)) && gvk.group@ == g && gvk.version@ == v && gvk.kind@ == k
                } else {
                    r == Err::<WorkloadKind, UnknownWorkload>(UnknownWorkload::MissingSpec)
                },
            },
        },
{
    let t = component.workload_type.as_str();
    if str_eq(t, "core.oam.dev/v1alpha1.Server") {
        Ok(WorkloadKind::ReplicatedServer)
    } else if str_eq(t, "core.oam.dev/v1alpha1.SingletonServer") {
        Ok(WorkloadKind::SingletonServer)
    } else if str_eq(t, "core.oam.dev/v1alpha1.SingletonTask") {
        Ok(WorkloadKind::SingletonTask)
    } else if str_eq(t, "core.oam.dev/v1alpha1.Task") {
        Ok(WorkloadKind::ReplicatedTask)
    } else if str_eq(t, "core.oam.dev/v1alpha1.SingletonWorker") {
        Ok(WorkloadKind::SingletonWorker)
    } else if str_eq(t, "core.oam.dev/v1alpha1.Worker") {
        Ok(WorkloadKind::ReplicatedWorker)
    } else if str_eq(t, "openfaas.com/v1alpha2.Function") {
        Ok(WorkloadKind::OpenFaaS)
    } else {
        match GroupVersionKind::parse(t) {
            Err(e) => Err(UnknownWorkload::BadType(e)),
            Ok(gvk) => if has_spec_setting(component) {
                Ok(WorkloadKind::Others(gvk))
            } else {
                Err(UnknownWorkload::MissingSpec)
            },
        }
    }
}

/// The value of the `oam.dev/workload-type` label of a built-in workload kind.
pub open spec fn spec_workload_label(k: WorkloadKind) -> Seq<char> {
    match k {
        WorkloadKind::ReplicatedServer => "Service"@,
        WorkloadKind::SingletonServer => "SingletonServer"@,
        WorkloadKind::SingletonTask => "SingletonTask"@,
        WorkloadKind::ReplicatedTask => "Task"@,
        WorkloadKind::SingletonWorker => "SingletonWorker"@,
        WorkloadKind::ReplicatedWorker => "Worker"@,
        _ => Seq::empty(),
    }
}

/// The label value a built-in workload kind gives its objects.
pub fn workload_label(k: &WorkloadKind) -> (s: String)
    ensures
        s@ == spec_workload_label(*k),
{
    match k {
        WorkloadKind::ReplicatedServer => "Service".to_string(),
        WorkloadKind::SingletonServer => "SingletonServer".to_string(),
        WorkloadKind::SingletonTask => "SingletonTask".to_string(),
        WorkloadKind::ReplicatedTask => "Task".to_string(),
        WorkloadKind::SingletonWorker => "SingletonWorker".to_string(),
        WorkloadKind::ReplicatedWorker => "Worker".to_string(),
        _ => String::new(),
    }
}

/// What a request of a builder does to its object.
#[derive(Clone, Copy, Debug, PartialEq, Eq, Structural)]
pub enum RequestKind {
    Create,
    Patch,
    Delete,
}

/// The request a phase name asks for: "modify" patches, "delete" deletes,
/// anything else creates.
pub fn request_kind(phase: &str) -> (r: RequestKind)
    ensures
        r == if phase@ == "modify"@ {
            RequestKind::Patch
        } else if phase@ == "delete"@ {
            RequestKind::Delete
        } else {
            RequestKind::Create
        },
{
    if str_eq(phase, "modify") {
        RequestKind::Patch
    } else if str_eq(phase, "delete") {
        RequestKind::Delete
    } else {
        RequestKind::Create
    }
}

/// A service in front of a workload's pods.
#[derive(Debug)]
pub struct Service {
    pub metadata: ObjectMeta,
    pub selector: Labels,
    pub ports: Vec<ServicePort>,
}

/// ServiceBuilder builds the service of a workload.
pub struct ServiceBuilder {
    pub component: Component,
    pub labels: Labels,
    pub selector: Labels,
    pub name: String,
    pub owner_ref: Option<Vec<OwnerReference>>,
}

impl ServiceBuilder {
    pub fn new(instance_name: String, component: Component) -> (b: ServiceBuilder)
        ensures
            b.name == instance_name,
            b.component == component,
            b.labels@ == Map::<Seq<char>, Seq<char>>::empty(),
            b.selector@ == Map::<Seq<char>, Seq<char>>::empty(),
            b.owner_ref is None,
    {
        ServiceBuilder { component, name: instance_name, labels: StrMap::new(), selector: StrMap::new(), owner_ref: None }
    }

    pub fn labels(self, labels: Labels) -> (b: ServiceBuilder)
        ensures
            b.labels == labels,
            b.selector == self.selector,
            b.name == self.name,
            b.component == self.component,
            b.owner_ref == self.owner_ref,
    {
        ServiceBuilder { labels, ..self }
    }

    pub fn select_labels(self, labels: Labels) -> (b: ServiceBuilder)
        ensures
            b.selector == labels,
            b.labels == self.labels,
            b.name == self.name,
            b.component == self.component,
            b.owner_ref == self.owner_ref,
    {
        ServiceBuilder { selector: labels, ..self }
    }

    pub fn owner_ref(self, owner_ref: Option<Vec<OwnerReference>>) -> (b: ServiceBuilder)
        ensures
            b.owner_ref == owner_ref,
            b.labels == self.labels,
            b.selector == self.selector,
            b.name == self.name,
            b.component == self.component,
    {
        ServiceBuilder { owner_ref, ..self }
    }

    /// The service: one port, the component's listening port; none where the
    /// component listens on no port.
    pub fn to_service(&self) -> (r: Option<Service>)
        ensures
            match first_container_with_port(self.component.containers@) {
                None => r is None,
                Some(c) => r matches Some(svc) && svc.metadata.name@ == self.name@ && svc.metadata.labels@
                    == self.labels@ && owners_view(svc.metadata.owner_references) == owners_view(self.owner_ref) && svc.selector@
                    == self.selector@ && svc.ports@.len() == 1 && svc.ports@[0].port
                    == self.component.containers@[c].ports@[0].container_port,
            },
    {
        match self.component.listening_port() {
            Some(port) => Some(
                Service {
                    metadata: form_metadata(self.name.clone(), self.labels.copy(), copy_owner_refs(&self.owner_ref)),
                    selector: self.selector.copy(),
                    ports: vec![port.to_service_port()],
                },
            ),
            None => None,
        }
    }
}

/// What reading an object's state gave, as a status reports it: the state,
/// or the error's text.
pub open spec fn reported(r: Result<String, String>) -> Seq<char> {
    match r {
        Ok(s) => s@,
        Err(e) => e@,
    }
}

/// The state, or the error's text.
pub fn report(r: Result<String, String>) -> (s: String)
    ensures
        s@ == reported(r),
{
    match r {
        Ok(s) => s,
        Err(e) => e,
    }
}

/// An error that says an object was not found: the object is created anew.
pub fn is_not_found(err: &str) -> (b: bool)
    ensures
        b == crate::strings::spec_contains(err@, "NotFound"@),
{
    crate::strings::str_contains(err, "NotFound")
}

/// The workload types built into the operator.
pub enum CoreWorkloadType {
    SingletonServerType(SingletonServer),
    ReplicatedServerType(ReplicatedServer),
    SingletonTaskType(SingletonTask),
    ReplicatedTaskType(ReplicatedTask),
    ReplicatedWorkerType(ReplicatedWorker),
    SingletonWorkerType(SingletonWorker),
}

/// The workload types that are custom resources of other projects.
pub enum ExtendedWorkloadType {
    OpenFaaS(extended_workload::openfaas::OpenFaaS),
    Others(extended_workload::others::Others),
}


/// The text of why a custom workload type cannot be loaded.
pub open spec fn unknown_workload_text(u: UnknownWorkload) -> Seq<char> {
    match u {
        UnknownWorkload::BadType(GvkError::MissingVersionAndKind) => "missing version and kind"@,
        UnknownWorkload::BadType(GvkError::MissingKind) => "missing kind"@,
        UnknownWorkload::MissingSpec => "unknown workload type must have spec in workloadSettings"@,
    }
}

impl UnknownWorkload {
    pub fn to_string(&self) -> (s: String)
        ensures
            s@ == unknown_workload_text(*self),
    {
        match self {
            UnknownWorkload::BadType(e) => e.to_string(),
            UnknownWorkload::MissingSpec => "unknown workload type must have spec in workloadSettings".to_string(),
        }
    }
}

/// The error of a component whose workload type cannot be loaded.
#[derive(Debug, PartialEq)]
pub struct UnknownWorkloadType {
    pub workload_type: String,
    pub reason: UnknownWorkload,
}

impl UnknownWorkloadType {
    pub fn to_string(&self) -> (s: String)
        ensures
            s@ == "workloadType "@ + self.workload_type@ + " is unknown, "@ + unknown_workload_text(self.reason),
    {
        "workloadType ".to_string().concat(self.workload_type.as_str()).concat(" is unknown, ").concat(
            self.reason.to_string().as_str(),
        )
    }
}

/// A workload ready to act: a built-in one, or one of another project.
pub enum Workload {
    Core(CoreWorkloadType),
    Extended(ExtendedWorkloadType),
}

/// The workload a component's workload type makes of its metadata: the
/// built-in types by name, replicated tasks and workers with one replica,
/// OpenFaaS functions, and any other `GROUP/VERSION.KIND` as a custom
/// workload, which needs a `spec` workload setting.
pub open spec fn workload_loaded(r: Result<Workload, UnknownWorkloadType>, t: Seq<char>, meta: WorkloadMetadata) -> bool {
    if t == "core.oam.dev/v1alpha1.Server"@ {
        r matches Ok(Workload::Core(CoreWorkloadType::ReplicatedServerType(w))) && w.meta == meta
    } else if t == "core.oam.dev/v1alpha1.SingletonServer"@ {
        r matches Ok(Workload::Core(CoreWorkloadType::SingletonServerType(w))) && w.meta == meta
    } else if t == "core.oam.dev/v1alpha1.SingletonTask"@ {
        r matches Ok(Workload::Core(CoreWorkloadType::SingletonTaskType(w))) && w.meta == meta
    } else if t == "core.oam.dev/v1alpha1.Task"@ {
        r matches Ok(Workload::Core(CoreWorkloadType::ReplicatedTaskType(w))) && w.meta == meta && w.replica_count
            == Some(1i32)
    } else if t == "core.oam.dev/v1alpha1.SingletonWorker"@ {
        r matches Ok(Workload::Core(CoreWorkloadType::SingletonWorkerType(w))) && w.meta == meta
    } else if t == "core.oam.dev/v1alpha1.Worker"@ {
        r matches Ok(Workload::Core(CoreWorkloadType::ReplicatedWorkerType(w))) && w.meta == meta
            && w.replica_count == Some(1i32)
    } else if t == "openfaas.com/v1alpha2.Function"@ {
        r matches Ok(Workload::Extended(ExtendedWorkloadType::OpenFaaS(w))) && w.meta == meta
    } else {
        match crate::schematic::spec_parse_gvk(t) {
            Err(e) => r matches Err(u) && u.workload_type@ == t && u.reason == UnknownWorkload::BadType(e),
            Ok((g, v, k)) => if has_setting(meta.definition, "spec"@) {
                r matches Ok(Workload::Extended(ExtendedWorkloadType::Others(o))) && o.meta == meta && o.gvk.group@ == g
                    && o.gvk.version@ == v && o.gvk.kind@ == k
            } else {
                r matches Err(u) && u.workload_type@ == t && u.reason == UnknownWorkload::MissingSpec
            },
        }
    }
}

/// Loads the workload of a component with its metadata.
pub fn load_workload(component: &Component, meta: WorkloadMetadata) -> (r: Result<Workload, UnknownWorkloadType>)
    ensures
        workload_loaded(r, component.workload_type@, meta),
{
    let t = component.workload_type.as_str();
    if str_eq(t, SERVER_NAME) {
        Ok(Workload::Core(CoreWorkloadType::ReplicatedServerType(ReplicatedServer { meta })))
    } else if str_eq(t, SINGLETON_SERVER_NAME) {
        Ok(Workload::Core(CoreWorkloadType::SingletonServerType(SingletonServer { meta })))
    } else if str_eq(t, SINGLETON_TASK_NAME) {
        Ok(Workload::Core(CoreWorkloadType::SingletonTaskType(SingletonTask { meta })))
    } else if str_eq(t, TASK_NAME) {
        Ok(Workload::Core(CoreWorkloadType::ReplicatedTaskType(ReplicatedTask { meta, replica_count: Some(1) })))
    } else if str_eq(t, SINGLETON_WORKER) {
        Ok(Workload::Core(CoreWorkloadType::SingletonWorkerType(SingletonWorker { meta })))
    } else if str_eq(t, WORKER_NAME) {
        Ok(Workload::Core(CoreWorkloadType::ReplicatedWorkerType(ReplicatedWorker { meta, replica_count: Some(1) })))
    } else if str_eq(t, "openfaas.com/v1alpha2.Function") {
        Ok(Workload::Extended(ExtendedWorkloadType::OpenFaaS(extended_workload::openfaas::OpenFaaS { meta })))
    } else {
        match extended_workload::others::Others::new(meta, t) {
            Ok(o) => Ok(Workload::Extended(ExtendedWorkloadType::Others(o))),
            Err(reason) => Err(UnknownWorkloadType { workload_type: component.workload_type.clone(), reason }),
        }
    }
}

} // verus!
