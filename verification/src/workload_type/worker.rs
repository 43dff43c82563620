//! Workers: daemon processes that do not listen on the network.
use vstd::prelude::*;
use crate::strmap::StrMap;
use crate::workload_type::{Labels, WorkloadMetadata, spec_workload_labels, spec_select_labels, ServiceBuilder, ConfigMap, WorkerPortError, validate_worker};
use crate::schematic::component::first_container_with_port;
use crate::workload_type::workload_builder::{DeploymentBuilder, JobBuilder, StatefulsetBuilder};
use crate::workload_type::{report, reported};

verus! {

pub struct ReplicatedWorker {
    pub meta: WorkloadMetadata,
    pub replica_count: Option<i32>,
}

impl ReplicatedWorker {
    /// The labels of the workload's objects.
    pub fn labels(&self) -> (l: Labels)
        ensures
            l@ == spec_workload_labels(self.meta.name@, "Worker"@, self.meta.instance_name@),
    {
        self.meta.labels("Worker")
    }

    /// The name of the workload's objects: the instance name.
    pub fn kube_name(&self) -> (n: String)
        ensures
            n@ == self.meta.instance_name@,
    {
        self.meta.kube_name()
    }
    /// The builder of the workload's deployment: named by the instance,
    /// labelled for the workload type, with the workload's parameters,
    /// annotations and owners.
    pub fn deployment_builder(self) -> (b: DeploymentBuilder)
        ensures
            b.name@ == self.meta.instance_name@,
            b.component == self.meta.definition,
            b.labels@ == spec_workload_labels(self.meta.name@, "Worker"@, self.meta.instance_name@),
            b.annotations == self.meta.annotations,
            b.owner_ref == self.meta.owner_ref,
            b.param_vals == self.meta.params,
            b.replicas is None,
            b.restart_policy@ == "Always"@,
    {
        let labels = self.labels();
        let name = self.kube_name();
        let meta = self.meta;
        DeploymentBuilder::new(name, meta.definition).parameter_map(meta.params).labels(labels).annotations(
            meta.annotations,
        ).owner_ref(meta.owner_ref)
    }
    /// The configuration maps the workload creates before its pods.
    pub fn config_maps(&self) -> (r: Vec<ConfigMap>)
        requires
            crate::schematic::component::configs_evaluable(self.meta.definition.containers@, self.meta.params@),
        ensures
            r@.len() == crate::schematic::component::spec_evaluate_configs(self.meta.definition.containers@, self.meta.params@).len(),
            forall|i: int|
                0 <= i < r@.len() ==> ((#[trigger] r@[i]).labels matches Some(l) && l@ == spec_workload_labels(
                    self.meta.name@,
                    "Worker"@,
                    self.meta.instance_name@,
                )),
    {
        self.meta.to_config_maps("Worker")
    }
    /// The status of the workload: the state of its deployment, or the error
    /// reading it gave.
    pub fn status_of(&self, state: Result<String, String>) -> (r: StrMap<String>)
        ensures
            r@ == Map::<Seq<char>, Seq<char>>::empty().insert("deployment/"@ + self.meta.instance_name@, reported(state)),
    {
        let mut resources: StrMap<String> = StrMap::new();
        resources.insert("deployment/".to_string().concat(self.kube_name().as_str()), report(state));
        resources
    }
    /// A worker does not listen on the network: none of its containers may
    /// declare a port.
    pub fn validate(&self) -> (r: Result<(), WorkerPortError>)
        ensures
            match first_container_with_port(self.meta.definition.containers@) {
                Some(c) => r matches Err(e) && e.container@ == self.meta.definition.containers@[c].name@,
                None => r is Ok,
            },
    {
        validate_worker(&self.meta)
    }
}

pub struct SingletonWorker {
    pub meta: WorkloadMetadata,
}

impl SingletonWorker {
    /// The labels of the workload's objects.
    pub fn labels(&self) -> (l: Labels)
        ensures
            l@ == spec_workload_labels(self.meta.name@, "SingletonWorker"@, self.meta.instance_name@),
    {
        self.meta.labels("SingletonWorker")
    }

    /// The name of the workload's objects: the instance name.
    pub fn kube_name(&self) -> (n: String)
        ensures
            n@ == self.meta.instance_name@,
    {
        self.meta.kube_name()
    }
    /// The builder of the workload's stateful set: named by the instance,
    /// labelled for the workload type, with the workload's parameters,
    /// annotations and owners.
    pub fn statefulset_builder(self) -> (b: StatefulsetBuilder)
        ensures
            b.name@ == self.meta.instance_name@,
            b.component == self.meta.definition,
            b.labels@ == spec_workload_labels(self.meta.name@, "SingletonWorker"@, self.meta.instance_name@),
            b.annotations == self.meta.annotations,
            b.owner_ref == self.meta.owner_ref,
            b.param_vals == self.meta.params,
            b.restart_policy@ == "Always"@,
    {
        let labels = self.labels();
        let name = self.kube_name();
        let meta = self.meta;
        StatefulsetBuilder::new(name, meta.definition).parameter_map(meta.params).labels(labels).annotations(
            meta.annotations,
        ).owner_ref(meta.owner_ref)
    }
    /// The configuration maps the workload creates before its pods.
    pub fn config_maps(&self) -> (r: Vec<ConfigMap>)
        requires
            crate::schematic::component::configs_evaluable(self.meta.definition.containers@, self.meta.params@),
        ensures
            r@.len() == crate::schematic::component::spec_evaluate_configs(self.meta.definition.containers@, self.meta.params@).len(),
            forall|i: int|
                0 <= i < r@.len() ==> ((#[trigger] r@[i]).labels matches Some(l) && l@ == spec_workload_labels(
                    self.meta.name@,
                    "SingletonWorker"@,
                    self.meta.instance_name@,
                )),
    {
        self.meta.to_config_maps("SingletonWorker")
    }
    /// The status of the workload: the state of its statefulset, or the error
    /// reading it gave.
    pub fn status_of(&self, state: Result<String, String>) -> (r: StrMap<String>)
        ensures
            r@ == Map::<Seq<char>, Seq<char>>::empty().insert("statefulset/"@ + self.meta.instance_name@, reported(state)),
    {
        let mut resources: StrMap<String> = StrMap::new();
        resources.insert("statefulset/".to_string().concat(self.kube_name().as_str()), report(state));
        resources
    }
    /// A worker does not listen on the network: none of its containers may
    /// declare a port.
    pub fn validate(&self) -> (r: Result<(), WorkerPortError>)
        ensures
            match first_container_with_port(self.meta.definition.containers@) {
                Some(c) => r matches Err(e) && e.container@ == self.meta.definition.containers@[c].name@,
                None => r is Ok,
            },
    {
        validate_worker(&self.meta)
    }
}

} // verus!
