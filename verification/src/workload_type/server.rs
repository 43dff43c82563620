//! Servers: workloads that listen on the network, with a service in front.
use vstd::prelude::*;
use crate::strmap::StrMap;
use crate::workload_type::{Labels, WorkloadMetadata, spec_workload_labels, spec_select_labels, ServiceBuilder, ConfigMap, WorkerPortError, validate_worker};
use crate::schematic::component::first_container_with_port;
use crate::workload_type::workload_builder::{DeploymentBuilder, JobBuilder, StatefulsetBuilder};
use crate::workload_type::{report, reported};

verus! {

/// A Replicated Server can take one component and scale it up or down.
pub struct ReplicatedServer {
    pub meta: WorkloadMetadata,
}

impl ReplicatedServer {
    /// The labels of the workload's objects.
    pub fn labels(&self) -> (l: Labels)
        ensures
            l@ == spec_workload_labels(self.meta.name@, "Service"@, self.meta.instance_name@),
    {
        self.meta.labels("Service")
    }

    /// The name of the workload's objects: the instance name.
    pub fn kube_name(&self) -> (n: String)
        ensures
            n@ == self.meta.instance_name@,
    {
        self.meta.kube_name()
    }
    /// The builder of the workload's deployment: named by the instance,
    /// labelled for the workload type, with the workload's parameters,
    /// annotations and owners.
    pub fn deployment_builder(self) -> (b: DeploymentBuilder)
        ensures
            b.name@ == self.meta.instance_name@,
            b.component == self.meta.definition,
            b.labels@ == spec_workload_labels(self.meta.name@, "Service"@, self.meta.instance_name@),
            b.annotations == self.meta.annotations,
            b.owner_ref == self.meta.owner_ref,
            b.param_vals == self.meta.params,
            b.replicas is None,
            b.restart_policy@ == "Always"@,
    {
        let labels = self.labels();
        let name = self.kube_name();
        let meta = self.meta;
        DeploymentBuilder::new(name, meta.definition).parameter_map(meta.params).labels(labels).annotations(
            meta.annotations,
        ).owner_ref(meta.owner_ref)
    }
    /// The builder of the service in front of the workload's pods.
    pub fn service_builder(self) -> (b: ServiceBuilder)
        ensures
            b.name@ == self.meta.instance_name@,
            b.component == self.meta.definition,
            b.labels@ == spec_workload_labels(self.meta.name@, "Service"@, self.meta.instance_name@),
            b.selector@ == spec_select_labels(self.meta.name@, self.meta.instance_name@),
            b.owner_ref == self.meta.owner_ref,
    {
        let labels = self.labels();
        let select = self.meta.select_labels();
        let name = self.kube_name();
        let meta = self.meta;
        ServiceBuilder::new(name, meta.definition).labels(labels).select_labels(select).owner_ref(meta.owner_ref)
    }
    /// The configuration maps the workload creates before its pods.
    pub fn config_maps(&self) -> (r: Vec<ConfigMap>)
        requires
            crate::schematic::component::configs_evaluable(self.meta.definition.containers@, self.meta.params@),
        ensures
            r@.len() == crate::schematic::component::spec_evaluate_configs(self.meta.definition.containers@, self.meta.params@).len(),
            forall|i: int|
                0 <= i < r@.len() ==> ((#[trigger] r@[i]).labels matches Some(l) && l@ == spec_workload_labels(
                    self.meta.name@,
                    "Service"@,
                    self.meta.instance_name@,
                )),
    {
        self.meta.to_config_maps("Service")
    }
    /// The status of the workload: the state of its deployment and of its
    /// service, or the errors reading them gave.
    pub fn status_of(&self, state: Result<String, String>, service: Result<String, String>) -> (r: StrMap<String>)
        ensures
            r@ == Map::<Seq<char>, Seq<char>>::empty().insert("deployment/"@ + self.meta.instance_name@, reported(state)).insert(
                "service/"@ + self.meta.instance_name@,
                reported(service),
            ),
    {
        let mut resources: StrMap<String> = StrMap::new();
        resources.insert("deployment/".to_string().concat(self.kube_name().as_str()), report(state));
        resources.insert("service/".to_string().concat(self.kube_name().as_str()), report(service));
        resources
    }
}

/// Singleton represents the Singleton Workload Type, as defined in the OAM specification.
///
/// It is currently implemented as a Kubernetes Statefulset with a Service in front of it.
pub struct SingletonServer {
    pub meta: WorkloadMetadata,
}

impl SingletonServer {
    /// The labels of the workload's objects.
    pub fn labels(&self) -> (l: Labels)
        ensures
            l@ == spec_workload_labels(self.meta.name@, "SingletonServer"@, self.meta.instance_name@),
    {
        self.meta.labels("SingletonServer")
    }

    /// The name of the workload's objects: the instance name.
    pub fn kube_name(&self) -> (n: String)
        ensures
            n@ == self.meta.instance_name@,
    {
        self.meta.kube_name()
    }
    /// The builder of the workload's stateful set: named by the instance,
    /// labelled for the workload type, with the workload's parameters,
    /// annotations and owners.
    pub fn statefulset_builder(self) -> (b: StatefulsetBuilder)
        ensures
            b.name@ == self.meta.instance_name@,
            b.component == self.meta.definition,
            b.labels@ == spec_workload_labels(self.meta.name@, "SingletonServer"@, self.meta.instance_name@),
            b.annotations == self.meta.annotations,
            b.owner_ref == self.meta.owner_ref,
            b.param_vals == self.meta.params,
            b.restart_policy@ == "Always"@,
    {
        let labels = self.labels();
        let name = self.kube_name();
        let meta = self.meta;
        StatefulsetBuilder::new(name, meta.definition).parameter_map(meta.params).labels(labels).annotations(
            meta.annotations,
        ).owner_ref(meta.owner_ref)
    }
    /// The builder of the service in front of the workload's pods.
    pub fn service_builder(self) -> (b: ServiceBuilder)
        ensures
            b.name@ == self.meta.instance_name@,
            b.component == self.meta.definition,
            b.labels@ == spec_workload_labels(self.meta.name@, "SingletonServer"@, self.meta.instance_name@),
            b.selector@ == spec_select_labels(self.meta.name@, self.meta.instance_name@),
            b.owner_ref == self.meta.owner_ref,
    {
        let labels = self.labels();
        let select = self.meta.select_labels();
        let name = self.kube_name();
        let meta = self.meta;
        ServiceBuilder::new(name, meta.definition).labels(labels).select_labels(select).owner_ref(meta.owner_ref)
    }
    /// The configuration maps the workload creates before its pods.
    pub fn config_maps(&self) -> (r: Vec<ConfigMap>)
        requires
            crate::schematic::component::configs_evaluable(self.meta.definition.containers@, self.meta.params@),
        ensures
            r@.len() == crate::schematic::component::spec_evaluate_configs(self.meta.definition.containers@, self.meta.params@).len(),
            forall|i: int|
                0 <= i < r@.len() ==> ((#[trigger] r@[i]).labels matches Some(l) && l@ == spec_workload_labels(
                    self.meta.name@,
                    "singleton-service"@,
                    self.meta.instance_name@,
                )),
    {
        self.meta.to_config_maps("singleton-service")
    }
    /// The status of the workload: the state of its statefulset and of its
    /// service, or the errors reading them gave.
    pub fn status_of(&self, state: Result<String, String>, service: Result<String, String>) -> (r: StrMap<String>)
        ensures
            r@ == Map::<Seq<char>, Seq<char>>::empty().insert("statefulset/"@ + self.meta.instance_name@, reported(state)).insert(
                "service/"@ + self.meta.instance_name@,
                reported(service),
            ),
    {
        let mut resources: StrMap<String> = StrMap::new();
        resources.insert("statefulset/".to_string().concat(self.kube_name().as_str()), report(state));
        resources.insert("service/".to_string().concat(self.kube_name().as_str()), report(service));
        resources
    }

    /// A singleton server cannot be modified: it is deleted and created anew.
    pub fn modify_error(&self) -> (s: String)
        ensures
            s@ == "we don't support SingletonServer "@ + self.meta.instance_name@ + " modify"@,
    {
        "we don't support SingletonServer ".to_string().concat(self.kube_name().as_str()).concat(" modify")
    }
}

} // verus!
