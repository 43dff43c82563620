//! Builders of the objects that hold a workload's pods: deployments, jobs and
//! stateful sets.
use vstd::prelude::*;
use crate::instigator::OwnerReference;
use crate::json::Json;
use crate::schematic::component::Component;
use crate::schematic::component::pod::{PodSpec, all_config_paths_have_parents, pod_spec_of};
use crate::strmap::{StrMap, opt_view};
use crate::workload_type::{Labels, ObjectMeta, ParamMap, copy_owner_refs, owners_view};

verus! {

/// The metadata of the pods a template makes.
#[derive(Debug)]
pub struct TemplateMeta {
    pub name: Option<String>,
    pub labels: Option<Labels>,
    pub annotations: Option<Labels>,
    pub owner_references: Option<Vec<OwnerReference>>,
}

/// A template of pods.
#[derive(Debug)]
pub struct PodTemplateSpec {
    pub metadata: Option<TemplateMeta>,
    pub spec: Option<PodSpec>,
}

/// The specification of a deployment.
#[derive(Debug)]
pub struct DeploymentSpec {
    pub replicas: Option<i32>,
    /// The labels that select the deployment's pods.
    pub selector: Option<Labels>,
    pub template: PodTemplateSpec,
}

/// A deployment.
#[derive(Debug)]
pub struct Deployment {
    pub metadata: ObjectMeta,
    pub spec: Option<DeploymentSpec>,
}

/// The specification of a job.
#[derive(Debug)]
pub struct JobSpec {
    pub backoff_limit: Option<i32>,
    pub parallelism: Option<i32>,
    pub template: PodTemplateSpec,
}

/// A job.
#[derive(Debug)]
pub struct Job {
    pub metadata: ObjectMeta,
    pub spec: Option<JobSpec>,
}

/// The specification of a stateful set.
#[derive(Debug)]
pub struct StatefulSetSpec {
    pub selector: Option<Labels>,
    pub template: PodTemplateSpec,
}

/// A stateful set.
#[derive(Debug)]
pub struct StatefulSet {
    pub metadata: ObjectMeta,
    pub spec: Option<StatefulSetSpec>,
}

impl Default for ObjectMeta {
    fn default() -> (m: Self)
        ensures
            m.name@ == Seq::<char>::empty(),
            m.labels@ == Map::<Seq<char>, Seq<char>>::empty(),
            m.owner_references is None,
    {
        ObjectMeta { name: String::new(), labels: StrMap::new(), owner_references: None }
    }
}

impl Default for PodTemplateSpec {
    fn default() -> (t: Self)
        ensures
            t.metadata is None,
            t.spec is None,
    {
        PodTemplateSpec { metadata: None, spec: None }
    }
}

impl Default for DeploymentSpec {
    fn default() -> (s: Self)
        ensures
            s.replicas is None,
            s.selector is None,
            s.template.metadata is None,
            s.template.spec is None,
    {
        DeploymentSpec { replicas: None, selector: None, template: PodTemplateSpec::default() }
    }
}

impl Default for Deployment {
    fn default() -> (d: Self)
        ensures
            d.metadata.name@ == Seq::<char>::empty(),
            d.metadata.labels@ == Map::<Seq<char>, Seq<char>>::empty(),
            d.metadata.owner_references is None,
            d.spec is None,
    {
        Deployment { metadata: ObjectMeta::default(), spec: None }
    }
}

impl Default for JobSpec {
    fn default() -> (s: Self)
        ensures
            s.backoff_limit is None,
            s.parallelism is None,
            s.template.metadata is None,
            s.template.spec is None,
    {
        JobSpec { backoff_limit: None, parallelism: None, template: PodTemplateSpec::default() }
    }
}

impl Default for Job {
    fn default() -> (j: Self)
        ensures
            j.metadata.name@ == Seq::<char>::empty(),
            j.metadata.labels@ == Map::<Seq<char>, Seq<char>>::empty(),
            j.metadata.owner_references is None,
            j.spec is None,
    {
        Job { metadata: ObjectMeta::default(), spec: None }
    }
}

fn copy_opt_labels(l: &Option<Labels>) -> (r: Option<Labels>)
    ensures
        opt_view(r) == opt_view(*l),
{
    match l {
        Some(x) => Some(x.copy()),
        None => None,
    }
}

/// The template of a workload's pods: its name, labels, annotations and
/// owners, and the pod specification of the component with a restart policy.
pub open spec fn template_of(
    t: PodTemplateSpec,
    name: Seq<char>,
    labels: Map<Seq<char>, Seq<char>>,
    annotations: Option<Map<Seq<char>, Seq<char>>>,
    owners: Option<Seq<OwnerReference>>,
    component: Component,
    params: Map<Seq<char>, Json>,
    restart_policy: Seq<char>,
) -> bool {
    &&& t.metadata matches Some(m) && opt_view(m.name) == Some(name) && opt_view(m.labels) == Some(labels) && opt_view(
        m.annotations,
    ) == annotations && owners_view(m.owner_references) == owners
    &&& t.spec matches Some(p) && pod_spec_of(p, component, params, Some(restart_policy))
}

fn make_template(
    name: &String,
    labels: &Labels,
    annotations: &Option<Labels>,
    owner_ref: &Option<Vec<OwnerReference>>,
    component: &Component,
    params: &ParamMap,
    restart_policy: &String,
) -> (t: PodTemplateSpec)
    requires
        all_config_paths_have_parents(component.containers@),
    ensures
        template_of(t, name@, labels@, opt_view(*annotations), owners_view(*owner_ref), *component, params@, restart_policy@),
{
    PodTemplateSpec {
        metadata: Some(
            TemplateMeta {
                name: Some(name.clone()),
                labels: Some(labels.copy()),
                annotations: copy_opt_labels(annotations),
                owner_references: copy_owner_refs(owner_ref),
            },
        ),
        spec: Some(component.to_pod_spec_with_policy(params, restart_policy.clone())),
    }
}

/// DeploymentBuilder builds new deployments specific to Rudr
///
/// This hides many of the details of building a Deployment, exposing only
/// parameters common to Rudr workload types.
pub struct DeploymentBuilder {
    pub component: Component,
    pub labels: Labels,
    pub annotations: Option<Labels>,
    pub name: String,
    pub replicas: Option<i32>,
    pub restart_policy: String,
    pub owner_ref: Option<Vec<OwnerReference>>,
    pub param_vals: ParamMap,
}

impl DeploymentBuilder {
    /// Create a DeploymentBuilder: no labels, annotations, replicas, owners or
    /// parameters, and pods that always restart.
    pub fn new(instance_name: String, component: Component) -> (b: Self)
        ensures
            b.component == component,
            b.name == instance_name,
            b.labels@ == Map::<Seq<char>, Seq<char>>::empty(),
            b.annotations is None,
            b.replicas is None,
            b.restart_policy@ == "Always"@,
            b.owner_ref is None,
            b.param_vals@ == Map::<Seq<char>, Json>::empty(),
    {
        DeploymentBuilder {
            component,
            name: instance_name,
            labels: StrMap::new(),
            annotations: None,
            replicas: None,
            restart_policy: "Always".to_string(),
            owner_ref: None,
            param_vals: StrMap::new(),
        }
    }

    /// Add labels
    pub fn labels(self, labels: Labels) -> (b: Self)
        ensures
            b == (Self { labels, ..self }),
    {
        DeploymentBuilder { labels, ..self }
    }

    /// Add annotations.
    ///
    /// In Kubernetes, these will be added to the pod specification.
    pub fn annotations(self, annotations: Option<Labels>) -> (b: Self)
        ensures
            b == (Self { annotations, ..self }),
    {
        DeploymentBuilder { annotations, ..self }
    }

    pub fn parameter_map(self, param_vals: ParamMap) -> (b: Self)
        ensures
            b == (Self { param_vals, ..self }),
    {
        DeploymentBuilder { param_vals, ..self }
    }

    /// Set the owner refence for the job and the pod
    pub fn owner_ref(self, owner: Option<Vec<OwnerReference>>) -> (b: Self)
        ensures
            b == (Self { owner_ref: owner, ..self }),
    {
        DeploymentBuilder { owner_ref: owner, ..self }
    }

    /// The deployment: named and labelled as the builder says, selecting its
    /// pods by its labels, with the component's pods as its template.
    pub fn to_deployment(&self) -> (d: Deployment)
        requires
            all_config_paths_have_parents(self.component.containers@),
        ensures
            d.metadata.name@ == self.name@,
            d.metadata.labels@ == self.labels@,
            owners_view(d.metadata.owner_references) == owners_view(self.owner_ref),
            d.spec matches Some(s) && s.replicas == self.replicas && opt_view(s.selector) == Some(self.labels@)
                && template_of(
                s.template,
                self.name@,
                self.labels@,
                opt_view(self.annotations),
                owners_view(self.owner_ref),
                self.component,
                self.param_vals@,
                self.restart_policy@,
            ),
    {
        Deployment {
            metadata: ObjectMeta {
                name: self.name.clone(),
                labels: self.labels.copy(),
                owner_references: copy_owner_refs(&self.owner_ref),
            },
            spec: Some(
                DeploymentSpec {
                    replicas: self.replicas,
                    selector: Some(self.labels.copy()),
                    template: make_template(
                        &self.name,
                        &self.labels,
                        &self.annotations,
                        &self.owner_ref,
                        &self.component,
                        &self.param_vals,
                        &self.restart_policy,
                    ),
                },
            ),
        }
    }
}

/// JobBuilder builds new jobs specific to Rudr
///
/// This hides many of the details of building a Job, exposing only
/// parameters common to Rudr workload types.
pub struct JobBuilder {
    pub component: Component,
    pub labels: Labels,
    pub annotations: Option<Labels>,
    pub name: String,
    pub restart_policy: String,
    pub owner_ref: Option<Vec<OwnerReference>>,
    pub parallelism: Option<i32>,
    pub param_vals: ParamMap,
}

impl JobBuilder {
    /// Create a JobBuilder: no labels, annotations, owners, parallelism or
    /// parameters, and pods that never restart.
    pub fn new(instance_name: String, component: Component) -> (b: Self)
        ensures
            b.component == component,
            b.name == instance_name,
            b.labels@ == Map::<Seq<char>, Seq<char>>::empty(),
            b.annotations is None,
            b.restart_policy@ == "Never"@,
            b.owner_ref is None,
            b.parallelism is None,
            b.param_vals@ == Map::<Seq<char>, Json>::empty(),
    {
        JobBuilder {
            component,
            name: instance_name,
            labels: StrMap::new(),
            annotations: None,
            restart_policy: "Never".to_string(),
            owner_ref: None,
            parallelism: None,
            param_vals: StrMap::new(),
        }
    }

    /// Add labels
    pub fn labels(self, labels: Labels) -> (b: Self)
        ensures
            b == (Self { labels, ..self }),
    {
        JobBuilder { labels, ..self }
    }

    /// Add annotations.
    ///
    /// In Kubernetes, these will be added to the pod specification.
    pub fn annotations(self, annotations: Option<Labels>) -> (b: Self)
        ensures
            b == (Self { annotations, ..self }),
    {
        JobBuilder { annotations, ..self }
    }

    pub fn parameter_map(self, param_vals: ParamMap) -> (b: Self)
        ensures
            b == (Self { param_vals, ..self }),
    {
        JobBuilder { param_vals, ..self }
    }

    /// Set the restart policy
    pub fn restart_policy(self, policy: String) -> (b: Self)
        ensures
            b == (Self { restart_policy: policy, ..self }),
    {
        JobBuilder { restart_policy: policy, ..self }
    }

    /// Set the owner refence for the job and the pod
    pub fn owner_ref(self, owner: Option<Vec<OwnerReference>>) -> (b: Self)
        ensures
            b == (Self { owner_ref: owner, ..self }),
    {
        JobBuilder { owner_ref: owner, ..self }
    }

    /// Set the parallelism
    pub fn parallelism(self, count: i32) -> (b: Self)
        ensures
            b == (Self { parallelism: Some(count), ..self }),
    {
        JobBuilder { parallelism: Some(count), ..self }
    }

    /// The job: named and labelled as the builder says, retried at most four
    /// times, with the component's pods as its template.
    pub fn to_job(&self) -> (j: Job)
        requires
            all_config_paths_have_parents(self.component.containers@),
        ensures
            j.metadata.name@ == self.name@,
            j.metadata.labels@ == self.labels@,
            owners_view(j.metadata.owner_references) == owners_view(self.owner_ref),
            j.spec matches Some(s) && s.backoff_limit == Some(4i32) && s.parallelism == self.parallelism && template_of(
                s.template,
                self.name@,
                self.labels@,
                opt_view(self.annotations),
                owners_view(self.owner_ref),
                self.component,
                self.param_vals@,
                self.restart_policy@,
            ),
    {
        Job {
            metadata: ObjectMeta {
                name: self.name.clone(),
                labels: self.labels.copy(),
                owner_references: copy_owner_refs(&self.owner_ref),
            },
            spec: Some(
                JobSpec {
                    backoff_limit: Some(4),
                    parallelism: self.parallelism,
                    template: make_template(
                        &self.name,
                        &self.labels,
                        &self.annotations,
                        &self.owner_ref,
                        &self.component,
                        &self.param_vals,
                        &self.restart_policy,
                    ),
                },
            ),
        }
    }
}

/// StatefulsetBuilder builds new Singleton Server and Singleton worker use StatefulSet of K8s
///
/// This hides many of the details of building a StatefulSet, exposing only
/// parameters common to Rudr workload types.
pub struct StatefulsetBuilder {
    pub component: Component,
    pub labels: Labels,
    pub annotations: Option<Labels>,
    pub name: String,
    pub restart_policy: String,
    pub owner_ref: Option<Vec<OwnerReference>>,
    pub param_vals: ParamMap,
}

impl StatefulsetBuilder {
    /// Create a StatefulsetBuilder: no labels, annotations, owners or
    /// parameters, and pods that always restart.
    pub fn new(instance_name: String, component: Component) -> (b: Self)
        ensures
            b.component == component,
            b.name == instance_name,
            b.labels@ == Map::<Seq<char>, Seq<char>>::empty(),
            b.annotations is None,
            b.restart_policy@ == "Always"@,
            b.owner_ref is None,
            b.param_vals@ == Map::<Seq<char>, Json>::empty(),
    {
        StatefulsetBuilder {
            component,
            name: instance_name,
            labels: StrMap::new(),
            annotations: None,
            restart_policy: "Always".to_string(),
            owner_ref: None,
            param_vals: StrMap::new(),
        }
    }

    /// Add labels
    pub fn labels(self, labels: Labels) -> (b: Self)
        ensures
            b == (Self { labels, ..self }),
    {
        StatefulsetBuilder { labels, ..self }
    }

    /// Add annotations.
    ///
    /// In Kubernetes, these will be added to the pod specification.
    pub fn annotations(self, annotations: Option<Labels>) -> (b: Self)
        ensures
            b == (Self { annotations, ..self }),
    {
        StatefulsetBuilder { annotations, ..self }
    }

    pub fn parameter_map(self, param_vals: ParamMap) -> (b: Self)
        ensures
            b == (Self { param_vals, ..self }),
    {
        StatefulsetBuilder { param_vals, ..self }
    }

    /// Set the owner refence for the job and the pod
    pub fn owner_ref(self, owner: Option<Vec<OwnerReference>>) -> (b: Self)
        ensures
            b == (Self { owner_ref: owner, ..self }),
    {
        StatefulsetBuilder { owner_ref: owner, ..self }
    }

    /// The stateful set: named and labelled as the builder says, selecting its
    /// pods by its labels, with the component's pods as its template.
    pub fn to_statefulset(&self) -> (s: StatefulSet)
        requires
            all_config_paths_have_parents(self.component.containers@),
        ensures
            s.metadata.name@ == self.name@,
            s.metadata.labels@ == self.labels@,
            owners_view(s.metadata.owner_references) == owners_view(self.owner_ref),
            s.spec matches Some(sp) && opt_view(sp.selector) == Some(self.labels@) && template_of(
                sp.template,
                self.name@,
                self.labels@,
                opt_view(self.annotations),
                owners_view(self.owner_ref),
                self.component,
                self.param_vals@,
                self.restart_policy@,
            ),
    {
        StatefulSet {
            metadata: ObjectMeta {
                name: self.name.clone(),
                labels: self.labels.copy(),
                owner_references: copy_owner_refs(&self.owner_ref),
            },
            spec: Some(
                StatefulSetSpec {
                    selector: Some(self.labels.copy()),
                    template: make_template(
                        &self.name,
                        &self.labels,
                        &self.annotations,
                        &self.owner_ref,
                        &self.component,
                        &self.param_vals,
                        &self.restart_policy,
                    ),
                },
            ),
        }
    }
}

impl Component {
    /// The specification of a deployment of one replica of the component's
    /// pods, selected by and labelled with the given labels.
    pub fn to_deployment_spec(&self, param_vals: &ParamMap, labels: Option<Labels>, annotations: Option<Labels>) -> (d: DeploymentSpec)
        requires
            all_config_paths_have_parents(self.containers@),
        ensures
            d.replicas == Some(1i32),
            opt_view(d.selector) == opt_view(labels),
            d.template.metadata matches Some(m) && m.name is None && opt_view(m.labels) == opt_view(labels) && m.annotations
                == annotations && m.owner_references is None,
            d.template.spec matches Some(p) && pod_spec_of(p, *self, param_vals@, None),
    {
        let selector = copy_opt_labels(&labels);
        DeploymentSpec {
            replicas: Some(1),
            selector,
            template: PodTemplateSpec {
                metadata: Some(TemplateMeta { name: None, labels, annotations, owner_references: None }),
                spec: Some(self.to_pod_spec(param_vals)),
            },
        }
    }
}

} // verus!
