//! The autoscaler trait: a horizontal pod autoscaler for a component instance.
use vstd::prelude::*;
use crate::instigator::OwnerReference;
use crate::json::{Json, JsonValue};
use crate::schematic::traits::util::{
    OwnerRefs, get_param, get_property, int_of, int_value, opt_json, param, property, spec_trait_labels,
    trait_labels,
};
use crate::strings::{signed_decimal, str_eq, i32_to_string};
use crate::strmap::StrMap;
use crate::workload_type::{ObjectMeta, ParamMap, copy_owner_refs, owners_view};

verus! {

/// Autoscaler provides autoscaling via a Kubernetes HorizontalPodAutoscaler.
#[derive(Debug)]
pub struct Autoscaler {
    pub name: String,
    pub instance_name: String,
    pub component_name: String,
    pub minimum: Option<i32>,
    pub maximum: Option<i32>,
    pub cpu: Option<i32>,
    pub memory: Option<i32>,
    pub owner_ref: OwnerRefs,
}

/// The resource a metric measures, and its target average utilization.
#[derive(Debug)]
pub struct ResourceMetricSource {
    pub name: String,
    pub target_average_utilization: Option<i32>,
    pub target_average_value: Option<String>,
}

/// A metric that scales a workload.
#[derive(Debug)]
pub struct MetricSpec {
    pub type_: String,
    pub resource: Option<ResourceMetricSource>,
}

/// The object a scaler scales.
#[derive(Debug)]
pub struct CrossVersionObjectReference {
    pub api_version: Option<String>,
    pub kind: String,
    pub name: String,
}

/// The specification of a horizontal pod autoscaler.
#[derive(Debug)]
pub struct HorizontalPodAutoscalerSpec {
    pub min_replicas: Option<i32>,
    pub max_replicas: i32,
    pub metrics: Option<Vec<MetricSpec>>,
    pub scale_target_ref: CrossVersionObjectReference,
}

/// A horizontal pod autoscaler.
#[derive(Debug)]
pub struct HorizontalPodAutoscaler {
    pub metadata: ObjectMeta,
    pub spec: Option<HorizontalPodAutoscalerSpec>,
}

/// The metrics an autoscaler sets: CPU first, then memory, each where it is given.
pub open spec fn metric_targets(cpu: Option<i32>, memory: Option<i32>) -> Seq<(Seq<char>, i32)> {
    let with_cpu = match cpu {
        Some(c) => seq![("cpu"@, c)],
        None => Seq::empty(),
    };
    match memory {
        Some(m) => with_cpu.push(("memory"@, m)),
        None => with_cpu,
    }
}

/// A resource metric of a name and target utilization.
pub open spec fn metric_of(m: MetricSpec, target: (Seq<char>, i32)) -> bool {
    &&& m.type_@ == "Resource"@
    &&& m.resource matches Some(r) && r.name@ == target.0 && r.target_average_utilization == Some(target.1)
        && r.target_average_value is None
}

/// The largest number of replicas: the maximum, else ten more than the minimum.
pub open spec fn max_replicas(minimum: Option<i32>, maximum: Option<i32>) -> int {
    match maximum {
        Some(m) => m as int,
        None => 10 + match minimum {
            Some(n) => n as int,
            None => 0,
        },
    }
}

/// The workload types an autoscaler can scale.
pub open spec fn scalable_workload(name: Seq<char>) -> bool {
    name == "core.oam.dev/v1alpha1.Server"@ || name == "core.oam.dev/v1alpha1.Task"@ || name
        == "core.oam.dev/v1alpha1.Worker"@
}

fn resource_metric(name: &str, target: i32) -> (m: MetricSpec)
    ensures
        metric_of(m, (name@, target)),
{
    MetricSpec {
        type_: "Resource".to_string(),
        resource: Some(
            ResourceMetricSource {
                name: name.to_string(),
                target_average_utilization: Some(target),
                target_average_value: None,
            },
        ),
    }
}

/// An autoscaler made from the properties of its trait: `minimum`,
/// `maximum`, `cpu` and `memory`, each an integer where given.
pub open spec fn autoscaler_from_properties(
    a: Autoscaler,
    name: Seq<char>,
    instance_name: Seq<char>,
    component_name: Seq<char>,
    props: Option<Json>,
    owners: Option<Seq<OwnerReference>>,
) -> bool {
    &&& a.name@ == name
    &&& a.instance_name@ == instance_name
    &&& a.component_name@ == component_name
    &&& owners_view(a.owner_ref) == owners
    &&& a.minimum == int_value(property(props, "minimum"@))
    &&& a.maximum == int_value(property(props, "maximum"@))
    &&& a.cpu == int_value(property(props, "cpu"@))
    &&& a.memory == int_value(property(props, "memory"@))
}

impl Autoscaler {
    /// An autoscaler from the parameter values of its trait: `minimum`,
    /// `maximum`, `cpu` and `memory`, each an integer where given.
    pub fn from_params(
        name: String,
        instance_name: String,
        component_name: String,
        params: &ParamMap,
        owner_ref: OwnerRefs,
    ) -> (a: Autoscaler)
        ensures
            a.name == name,
            a.instance_name == instance_name,
            a.component_name == component_name,
            a.owner_ref == owner_ref,
            a.minimum == int_value(param(params@, "minimum"@)),
            a.maximum == int_value(param(params@, "maximum"@)),
            a.cpu == int_value(param(params@, "cpu"@)),
            a.memory == int_value(param(params@, "memory"@)),
    {
        Autoscaler {
            name,
            component_name,
            instance_name,
            owner_ref,
            minimum: int_of(get_param(params, "minimum")),
            maximum: int_of(get_param(params, "maximum")),
            cpu: int_of(get_param(params, "cpu")),
            memory: int_of(get_param(params, "memory")),
        }
    }

    /// An autoscaler from the properties of its trait: `minimum`, `maximum`,
    /// `cpu` and `memory`, each an integer where given.
    pub fn from_properties(
        name: String,
        instance_name: String,
        component_name: String,
        properties_map: Option<&JsonValue>,
        owner_ref: OwnerRefs,
    ) -> (a: Autoscaler)
        ensures
            autoscaler_from_properties(
                a,
                name@,
                instance_name@,
                component_name@,
                opt_json(properties_map),
                owners_view(owner_ref),
            ),
    {
        Autoscaler {
            name,
            component_name,
            instance_name,
            owner_ref,
            minimum: int_of(get_property(properties_map, "minimum")),
            maximum: int_of(get_property(properties_map, "maximum")),
            cpu: int_of(get_property(properties_map, "cpu")),
            memory: int_of(get_property(properties_map, "memory")),
        }
    }

    /// The name of the autoscaler object.
    pub fn kube_name(&self) -> (n: String)
        ensures
            n@ == self.instance_name@ + "-trait-autoscaler"@,
    {
        self.instance_name.clone().concat("-trait-autoscaler")
    }

    /// The horizontal pod autoscaler of the instance's deployment.
    pub fn to_horizontal_pod_autoscaler(&self) -> (h: HorizontalPodAutoscaler)
        requires
            i32::MIN <= max_replicas(self.minimum, self.maximum) <= i32::MAX,
        ensures
            h.metadata.name@ == self.instance_name@ + "-trait-autoscaler"@,
            h.metadata.labels@ == spec_trait_labels(self.name@, self.instance_name@),
            owners_view(h.metadata.owner_references) == owners_view(self.owner_ref),
            h.spec matches Some(s) && {
                &&& s.min_replicas == self.minimum
                &&& s.max_replicas == max_replicas(self.minimum, self.maximum)
                &&& s.metrics matches Some(ms) && ms@.len() == metric_targets(self.cpu, self.memory).len() && forall|i: int|
                    0 <= i < ms@.len() ==> metric_of(#[trigger] ms@[i], metric_targets(self.cpu, self.memory)[i])
                &&& s.scale_target_ref.api_version matches Some(v) && v@ == "apps/v1"@
                &&& s.scale_target_ref.kind@ == "Deployment"@
                &&& s.scale_target_ref.name@ == self.instance_name@
            },
    {
        let mut metrics: Vec<MetricSpec> = Vec::new();
        match self.cpu {
            Some(cpu) => metrics.push(resource_metric("cpu", cpu)),
            None => {},
        }
        match self.memory {
            Some(mem) => metrics.push(resource_metric("memory", mem)),
            None => {},
        }
        let max = match self.maximum {
            Some(m) => m,
            None => 10 + match self.minimum {
                Some(n) => n,
                None => 0,
            },
        };
        HorizontalPodAutoscaler {
            metadata: ObjectMeta {
                name: self.kube_name(),
                labels: trait_labels(self.name.clone(), self.instance_name.clone()),
                owner_references: copy_owner_refs(&self.owner_ref),
            },
            spec: Some(
                HorizontalPodAutoscalerSpec {
                    min_replicas: self.minimum,
                    max_replicas: max,
                    metrics: Some(metrics),
                    scale_target_ref: CrossVersionObjectReference {
                        api_version: Some("apps/v1".to_string()),
                        kind: "Deployment".to_string(),
                        name: self.instance_name.clone(),
                    },
                },
            ),
        }
    }

    /// Only replicated servers, tasks and workers can be autoscaled.
    pub fn supports_workload_type(name: &str) -> (b: bool)
        ensures
            b == scalable_workload(name@),
    {
        str_eq(name, "core.oam.dev/v1alpha1.Server") || str_eq(name, "core.oam.dev/v1alpha1.Task") || str_eq(
            name,
            "core.oam.dev/v1alpha1.Worker",
        )
    }

    /// The status of the autoscaler from what reading it gave: the error's
    /// text, or the current number of replicas; none where it has no status.
    pub fn status_of(&self, read: Result<Option<i32>, String>) -> (r: Option<StrMap<String>>)
        ensures
            match read {
                Err(e) => r matches Some(m) && m@ == Map::<Seq<char>, Seq<char>>::empty().insert(
                    "horizontalpodautoscaler/"@ + (self.instance_name@ + "-trait-autoscaler"@),
                    e@,
                ),
                Ok(Some(current)) => r matches Some(m) && m@ == Map::<Seq<char>, Seq<char>>::empty().insert(
                    "horizontalpodautoscaler/"@ + (self.instance_name@ + "-trait-autoscaler"@),
                    signed_decimal(current as int),
                ),
                Ok(None) => r is None,
            },
    {
        let key = "horizontalpodautoscaler/".to_string().concat(self.kube_name().as_str());
        let mut resource: StrMap<String> = StrMap::new();
        match read {
            Err(e) => {
                resource.insert(key, e);
                Some(resource)
            },
            Ok(Some(current)) => {
                resource.insert(key, i32_to_string(current));
                Some(resource)
            },
            Ok(None) => None,
        }
    }
}

} // verus!
