//! Tasks: workloads that run to completion, as jobs.
use vstd::prelude::*;
use crate::strmap::StrMap;
use crate::workload_type::{Labels, WorkloadMetadata, spec_workload_labels, spec_select_labels, ServiceBuilder, ConfigMap, WorkerPortError, validate_worker};
use crate::schematic::component::first_container_with_port;
use crate::workload_type::workload_builder::{DeploymentBuilder, JobBuilder, StatefulsetBuilder};
use crate::workload_type::{report, reported};

verus! {

/// Task represents a non-daemon process that can be parallelized.
///
/// It is currently implemented as a Kubernetes Job.
pub struct ReplicatedTask {
    pub meta: WorkloadMetadata,
    pub replica_count: Option<i32>,
}

impl ReplicatedTask {
    /// The labels of the workload's objects.
    pub fn labels(&self) -> (l: Labels)
        ensures
            l@ == spec_workload_labels(self.meta.name@, "Task"@, self.meta.instance_name@),
    {
        self.meta.labels("Task")
    }

    /// The name of the workload's objects: the instance name.
    pub fn kube_name(&self) -> (n: String)
        ensures
            n@ == self.meta.instance_name@,
    {
        self.meta.kube_name()
    }
    /// The builder of the workload's job: named by the instance, labelled
    /// for the workload type, with the workload's parameters, annotations and
    /// owners, and pods that never restart.
    pub fn job_builder(self) -> (b: JobBuilder)
        ensures
            b.name@ == self.meta.instance_name@,
            b.component == self.meta.definition,
            b.labels@ == spec_workload_labels(self.meta.name@, "Task"@, self.meta.instance_name@),
            b.annotations == self.meta.annotations,
            b.owner_ref == self.meta.owner_ref,
            b.param_vals == self.meta.params,
            b.restart_policy@ == "Never"@,
            b.parallelism == Some(match self.replica_count {
                Some(c) => c,
                None => 1i32,
            }),
    {
        let labels = self.labels();
        let name = self.kube_name();
        let replica_count = self.replica_count;
        let meta = self.meta;
        JobBuilder::new(name, meta.definition).parameter_map(meta.params).labels(labels).annotations(
            meta.annotations,
        ).parallelism(
            match replica_count {
                Some(c) => c,
                None => 1,
            },
        ).owner_ref(meta.owner_ref).restart_policy("Never".to_string())
    }
    /// The status of the workload: the state of its job, or the error
    /// reading it gave.
    pub fn status_of(&self, state: Result<String, String>) -> (r: StrMap<String>)
        ensures
            r@ == Map::<Seq<char>, Seq<char>>::empty().insert("job/"@ + self.meta.instance_name@, reported(state)),
    {
        let mut resources: StrMap<String> = StrMap::new();
        resources.insert("job/".to_string().concat(self.kube_name().as_str()), report(state));
        resources
    }
}

/// SingletonTask represents a non-daemon process.
///
/// It is currently implemented as a Kubernetes Job.
pub struct SingletonTask {
    pub meta: WorkloadMetadata,
}

impl SingletonTask {
    /// The labels of the workload's objects.
    pub fn labels(&self) -> (l: Labels)
        ensures
            l@ == spec_workload_labels(self.meta.name@, "SingletonTask"@, self.meta.instance_name@),
    {
        self.meta.labels("SingletonTask")
    }

    /// The name of the workload's objects: the instance name.
    pub fn kube_name(&self) -> (n: String)
        ensures
            n@ == self.meta.instance_name@,
    {
        self.meta.kube_name()
    }
    /// The builder of the workload's job: named by the instance, labelled
    /// for the workload type, with the workload's parameters, annotations and
    /// owners, and pods that never restart.
    pub fn job_builder(self) -> (b: JobBuilder)
        ensures
            b.name@ == self.meta.instance_name@,
            b.component == self.meta.definition,
            b.labels@ == spec_workload_labels(self.meta.name@, "SingletonTask"@, self.meta.instance_name@),
            b.annotations == self.meta.annotations,
            b.owner_ref == self.meta.owner_ref,
            b.param_vals == self.meta.params,
            b.restart_policy@ == "Never"@,
            b.parallelism is None,
    {
        let labels = self.labels();
        let name = self.kube_name();
        let meta = self.meta;
        JobBuilder::new(name, meta.definition).parameter_map(meta.params).labels(labels).annotations(
            meta.annotations,
        ).owner_ref(meta.owner_ref).restart_policy("Never".to_string())
    }
    /// The status of the workload: the state of its job, or the error
    /// reading it gave.
    pub fn status_of(&self, state: Result<String, String>) -> (r: StrMap<String>)
        ensures
            r@ == Map::<Seq<char>, Seq<char>>::empty().insert("job/"@ + self.meta.instance_name@, reported(state)),
    {
        let mut resources: StrMap<String> = StrMap::new();
        resources.insert("job/".to_string().concat(self.kube_name().as_str()), report(state));
        resources
    }
}

} // verus!
