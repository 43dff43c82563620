//! The manual scaler trait: a fixed number of replicas for a workload.
use vstd::prelude::*;
use crate::instigator::OwnerReference;
use crate::json::{Json, JsonValue};
use crate::schematic::traits::autoscaler::scalable_workload;
use crate::schematic::traits::util::{
    OwnerRefs, get_param, get_property, int_of, int_value, opt_json, param, property, str_of, str_value,
};
use crate::strings::{parse_i32, spec_parse_i32, signed_decimal, str_eq, i32_to_string};
use crate::workload_type::{Labels, ParamMap, owners_view};
use crate::workload_type::workload_builder::{Deployment, DeploymentSpec, Job, JobSpec};

verus! {

/// A manual scaler provides a way to manually scale replicable objects.
#[derive(Debug)]
pub struct ManualScaler {
    pub name: String,
    pub instance_name: String,
    pub component_name: String,
    pub owner_ref: OwnerRefs,
    pub replica_count: i32,
    pub workload_type: String,
}

/// What a manual scaler scales, by workload type.
#[derive(Debug, PartialEq, Eq, Structural)]
pub enum ScaleTarget {
    /// The deployment of a replicated server or worker.
    Deployment,
    /// The job of a replicated task.
    Job,
    /// The function of an OpenFaaS workload.
    Function,
    /// Nothing: the workload type cannot be scaled.
    Unsupported,
}

/// The next step of scaling.
#[derive(Debug, PartialEq)]
pub enum ScaleStep {
    /// Read the object to scale.
    Read,
    /// Write the scaled object back.
    Write,
    /// Scaling is over, with this outcome.
    Finish(Result<(), String>),
}

/// The next step of scaling a target, given what reading the object gave
/// (none before it is read) and what writing it gave (none before it is
/// written). A workload type that cannot be scaled is left alone. A
/// deployment or a job that cannot be read is left alone as well; a
/// function that cannot be read fails with the read's error. A read object
/// is written back, and the write's outcome is the outcome of scaling.
pub open spec fn spec_scale_step(
    target: ScaleTarget,
    read: Option<Result<(), Seq<char>>>,
    write: Option<Result<(), Seq<char>>>,
) -> (ScaleStepKind, Option<Result<(), Seq<char>>>) {
    if target == ScaleTarget::Unsupported {
        (ScaleStepKind::Finish, Some(Ok(())))
    } else {
        match read {
            None => (ScaleStepKind::Read, None),
            Some(Err(e)) => if target == ScaleTarget::Function {
                (ScaleStepKind::Finish, Some(Err(e)))
            } else {
                (ScaleStepKind::Finish, Some(Ok(())))
            },
            Some(Ok(())) => match write {
                None => (ScaleStepKind::Write, None),
                Some(w) => (ScaleStepKind::Finish, Some(w)),
            },
        }
    }
}

/// The kind of a scaling step.
#[derive(Clone, Copy, Debug, PartialEq, Eq, Structural)]
pub enum ScaleStepKind {
    Read,
    Write,
    Finish,
}

/// The kind and the outcome of a step, its error by its text.
pub open spec fn step_model(s: ScaleStep) -> (ScaleStepKind, Option<Result<(), Seq<char>>>) {
    match s {
        ScaleStep::Read => (ScaleStepKind::Read, None),
        ScaleStep::Write => (ScaleStepKind::Write, None),
        ScaleStep::Finish(Ok(())) => (ScaleStepKind::Finish, Some(Ok(()))),
        ScaleStep::Finish(Err(e)) => (ScaleStepKind::Finish, Some(Err(e@))),
    }
}

/// A result by the text of its error.
pub open spec fn result_model(r: Option<Result<(), String>>) -> Option<Result<(), Seq<char>>> {
    match r {
        None => None,
        Some(Ok(())) => Some(Ok(())),
        Some(Err(e)) => Some(Err(e@)),
    }
}

/// The number of replicas a `replicaCount` parameter asks for: an integer,
/// or a string that reads as one; one where it is missing or unreadable.
pub open spec fn replica_count_param(v: Option<Json>) -> i32 {
    match int_value(v) {
        Some(i) => i,
        None => match str_value(v) {
            Some(s) => match spec_parse_i32(s) {
                Some(i) => i,
                None => 1,
            },
            None => 1,
        },
    }
}

/// What a workload type is scaled through.
pub open spec fn spec_scale_target(workload_type: Seq<char>) -> ScaleTarget {
    if workload_type == "core.oam.dev/v1alpha1.Server"@ || workload_type == "core.oam.dev/v1alpha1.Worker"@ {
        ScaleTarget::Deployment
    } else if workload_type == "core.oam.dev/v1alpha1.Task"@ {
        ScaleTarget::Job
    } else if workload_type == "openfaas.com/v1alpha2.Function"@ {
        ScaleTarget::Function
    } else {
        ScaleTarget::Unsupported
    }
}

/// A manual scaler made from the properties of its trait: `replicaCount`,
/// an integer; one where it is missing.
pub open spec fn manual_scaler_from_properties(
    m: ManualScaler,
    name: Seq<char>,
    instance_name: Seq<char>,
    component_name: Seq<char>,
    props: Option<Json>,
    owners: Option<Seq<OwnerReference>>,
    workload_type: Seq<char>,
) -> bool {
    &&& m.name@ == name
    &&& m.instance_name@ == instance_name
    &&& m.component_name@ == component_name
    &&& owners_view(m.owner_ref) == owners
    &&& m.workload_type@ == workload_type
    &&& m.replica_count == match int_value(property(props, "replicaCount"@)) {
        Some(i) => i,
        None => 1i32,
    }
}

impl ManualScaler {
    /// A manual scaler from the parameter values of its trait.
    pub fn from_params(
        name: String,
        instance_name: String,
        component_name: String,
        params: &ParamMap,
        owner_ref: OwnerRefs,
        workload_type: String,
    ) -> (m: ManualScaler)
        ensures
            m.name == name,
            m.instance_name == instance_name,
            m.component_name == component_name,
            m.owner_ref == owner_ref,
            m.workload_type == workload_type,
            m.replica_count == replica_count_param(param(params@, "replicaCount"@)),
    {
        let p = get_param(params, "replicaCount");
        let replica_count = match int_of(p) {
            Some(i) => i,
            None => match str_of(p) {
                Some(s) => match parse_i32(s.as_str()) {
                    Some(i) => i,
                    None => 1,
                },
                None => 1,
            },
        };
        ManualScaler { name, instance_name, component_name, owner_ref, workload_type, replica_count }
    }

    /// A manual scaler from the properties of its trait: `replicaCount`, an
    /// integer; one where it is missing.
    pub fn from_properties(
        name: String,
        instance_name: String,
        component_name: String,
        properties_map: Option<&JsonValue>,
        owner_ref: OwnerRefs,
        workload_type: String,
    ) -> (m: ManualScaler)
        ensures
            manual_scaler_from_properties(
                m,
                name@,
                instance_name@,
                component_name@,
                opt_json(properties_map),
                owners_view(owner_ref),
                workload_type@,
            ),
    {
        let replica_count = match int_of(get_property(properties_map, "replicaCount")) {
            Some(i) => i,
            None => 1,
        };
        ManualScaler { name, instance_name, component_name, owner_ref, workload_type, replica_count }
    }

    /// What the scaler scales: the deployment of a replicated server or
    /// worker, the job of a task, the function of an OpenFaaS workload.
    pub fn scale_target(&self) -> (t: ScaleTarget)
        ensures
            t == spec_scale_target(self.workload_type@),
    {
        let w = self.workload_type.as_str();
        if str_eq(w, "core.oam.dev/v1alpha1.Server") || str_eq(w, "core.oam.dev/v1alpha1.Worker") {
            ScaleTarget::Deployment
        } else if str_eq(w, "core.oam.dev/v1alpha1.Task") {
            ScaleTarget::Job
        } else if str_eq(w, "openfaas.com/v1alpha2.Function") {
            ScaleTarget::Function
        } else {
            ScaleTarget::Unsupported
        }
    }

    /// The next step of scaling, given what reading and writing the object
    /// gave so far.
    pub fn scale_step(&self, read: Option<Result<(), String>>, write: Option<Result<(), String>>) -> (r: ScaleStep)
        ensures
            step_model(r) == spec_scale_step(spec_scale_target(self.workload_type@), result_model(read), result_model(write)),
    {
        let target = self.scale_target();
        if target == ScaleTarget::Unsupported {
            return ScaleStep::Finish(Ok(()));
        }
        match read {
            None => ScaleStep::Read,
            Some(Err(e)) => if target == ScaleTarget::Function {
                ScaleStep::Finish(Err(e))
            } else {
                ScaleStep::Finish(Ok(()))
            },
            Some(Ok(())) => match write {
                None => ScaleStep::Write,
                Some(w) => ScaleStep::Finish(w),
            },
        }
    }

    /// Scale a deployment
    ///
    /// This takes a base deployment and returns a new deployment with the replica count set.
    pub fn scale_deployment(&self, deployment: Deployment) -> (d: Deployment)
        requires
            deployment.spec is Some,
        ensures
            d.metadata == deployment.metadata,
            d.spec == Some(DeploymentSpec { replicas: Some(self.replica_count), ..deployment.spec->0 }),
    {
        let spec = match deployment.spec {
            Some(s) => s,
            None => DeploymentSpec::default(),
        };
        Deployment {
            metadata: deployment.metadata,
            spec: Some(DeploymentSpec { replicas: Some(self.replica_count), ..spec }),
        }
    }

    /// Scale a job: the job with its parallelism set to the replica count.
    pub fn scale_job(&self, job: Job) -> (j: Job)
        requires
            job.spec is Some,
        ensures
            j.metadata == job.metadata,
            j.spec == Some(JobSpec { parallelism: Some(self.replica_count), ..job.spec->0 }),
    {
        let spec = match job.spec {
            Some(s) => s,
            None => JobSpec::default(),
        };
        Job { metadata: job.metadata, spec: Some(JobSpec { parallelism: Some(self.replica_count), ..spec }) }
    }

    /// The labels of a scaled function: its minimum scale set to the replica count.
    pub fn scale_function_labels(&self, labels: Labels) -> (r: Labels)
        ensures
            r@ == labels@.insert("com.openfaas.scale.min"@, signed_decimal(self.replica_count as int)),
    {
        let mut labels = labels;
        labels.insert("com.openfaas.scale.min".to_string(), i32_to_string(self.replica_count));
        labels
    }

    /// Only replicated servers, tasks and workers can be scaled.
    pub fn supports_workload_type(name: &str) -> (b: bool)
        ensures
            b == scalable_workload(name@),
    {
        str_eq(name, "core.oam.dev/v1alpha1.Server") || str_eq(name, "core.oam.dev/v1alpha1.Task") || str_eq(
            name,
            "core.oam.dev/v1alpha1.Worker",
        )
    }
}

} // verus!
