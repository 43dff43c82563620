//! The OpenFaaS function workload type.
use vstd::prelude::*;
use crate::instigator::{ApiOwnerReference, OwnerReference, api_owner_of, api_owner_reference};
use crate::json::{Json, JsonValue, spec_get};
use crate::strmap::{StrMap, opt_view};
use crate::workload_type::{WorkloadMetadata, spec_workload_setting};

verus! {

pub const OPENFAAS: &'static str = "openfaas.com/v1alpha2.Function";

/// FunctionSpec is the spec for a Function resource
#[derive(Debug)]
pub struct FunctionSpec {
    pub name: String,
    pub image: String,
    pub replicas: Option<i32>,
    pub handler: Option<String>,
    pub annotations: Option<StrMap<String>>,
    pub labels: Option<StrMap<String>>,
    pub environment: Option<StrMap<String>>,
    pub constraints: Option<Vec<String>>,
    pub secrets: Option<Vec<String>>,
    pub limits: Option<FunctionResources>,
    pub requests: Option<FunctionResources>,
    pub read_only_root_filesystem: Option<bool>,
}

impl Default for FunctionSpec {
    fn default() -> (s: Self)
        ensures
            s.name@ == Seq::<char>::empty(),
            s.image@ == Seq::<char>::empty(),
            s.replicas is None,
            s.handler is None,
            s.annotations is None,
            s.labels is None,
            s.environment is None,
            s.constraints is None,
            s.secrets is None,
            s.limits is None,
            s.requests is None,
            s.read_only_root_filesystem is None,
    {
        FunctionSpec {
            name: String::new(),
            image: String::new(),
            replicas: None,
            handler: None,
            annotations: None,
            labels: None,
            environment: None,
            constraints: None,
            secrets: None,
            limits: None,
            requests: None,
            read_only_root_filesystem: None,
        }
    }
}

/// FunctionResources is used to set CPU and memory limits and requests
#[derive(Clone, Debug)]
pub struct FunctionResources {
    pub memory: Option<String>,
    pub cpu: Option<String>,
}

impl Default for FunctionResources {
    fn default() -> (r: Self)
        ensures
            r.memory is None,
            r.cpu is None,
    {
        FunctionResources { memory: None, cpu: None }
    }
}

/// FunctionStatus is the status for a Function resource
#[derive(Clone, Debug)]
pub struct FunctionStatus {
    pub available_replicas: Option<i32>,
}

impl Default for FunctionStatus {
    fn default() -> (s: Self)
        ensures
            s.available_replicas is None,
    {
        FunctionStatus { available_replicas: None }
    }
}

/// A function object: its type, its name, its owners, its spec and status.
#[derive(Debug)]
pub struct KubeFaaS {
    pub api_version: String,
    pub kind: String,
    pub name: String,
    pub owner_references: Vec<ApiOwnerReference>,
    pub spec: FunctionSpec,
    pub status: Option<FunctionStatus>,
}

/// The error of a function whose `image` setting is missing or not a string.
#[derive(Debug, PartialEq)]
pub struct MissingImage {}

impl MissingImage {
    pub fn to_string(&self) -> (s: String)
        ensures
            s@ == "image is required in workload setting and must be string"@,
    {
        "image is required in workload setting and must be string".to_string()
    }
}

pub struct OpenFaaS {
    pub meta: WorkloadMetadata,
}

/// The environment variable an entry of the `environment` setting gives: the
/// entry's name, with the value of the parameter its `fromParam` names, or
/// else its own `value`, where that is a string.
pub open spec fn env_entry(e: Json, params: Map<Seq<char>, Json>) -> Option<(Seq<char>, Seq<char>)> {
    match (spec_get(e, "name"@), spec_get(e, "fromParam"@)) {
        (Some(Json::String(k)), Some(Json::String(fp))) => {
            let resolved = if params.contains_key(fp) {
                Some(params[fp])
            } else {
                spec_get(e, "value"@)
            };
            match resolved {
                Some(Json::String(v)) => Some((k, v)),
                _ => None,
            }
        },
        _ => None,
    }
}

/// The environment the entries give, a later entry overriding an earlier one
/// of the same name.
pub open spec fn env_map(items: Seq<Json>, params: Map<Seq<char>, Json>) -> Map<Seq<char>, Seq<char>>
    decreases items.len(),
{
    if items.len() == 0 {
        Map::empty()
    } else {
        let m = env_map(items.drop_last(), params);
        match env_entry(items.last(), params) {
            Some((k, v)) => m.insert(k, v),
            None => m,
        }
    }
}

/// The environment of a function: `None` where the `environment` setting is
/// not an array or gives no variable.
pub open spec fn spec_extract_environment(meta: WorkloadMetadata) -> Option<Map<Seq<char>, Seq<char>>> {
    match spec_workload_setting(meta, "environment"@) {
        Some(Json::Array(items)) => if env_map(items, meta.params@) == Map::<Seq<char>, Seq<char>>::empty() {
            None
        } else {
            Some(env_map(items, meta.params@))
        },
        _ => None,
    }
}

/// The string value of a setting.
pub open spec fn string_setting(meta: WorkloadMetadata, key: Seq<char>) -> Option<Seq<char>> {
    match spec_workload_setting(meta, key) {
        Some(Json::String(s)) => Some(s),
        _ => None,
    }
}

/// The owners of a function object, one for each owner of the workload.
pub fn convert_owner_ref(own: &Vec<OwnerReference>) -> (r: Vec<ApiOwnerReference>)
    ensures
        r@.len() == own@.len(),
        forall|i: int| 0 <= i < r@.len() ==> api_owner_of(#[trigger] r@[i], own@[i]),
{
    let mut out: Vec<ApiOwnerReference> = Vec::new();
    let n = own.len();
    let mut i: usize = 0;
    while i < n
        invariant
            n == own@.len(),
            i <= n,
            out@.len() == i,
            forall|j: int| 0 <= j < i ==> api_owner_of(#[trigger] out@[j], own@[j]),
        decreases n - i,
    {
        out.push(api_owner_reference(&own[i]));
        i = i + 1;
    }
    out
}

impl OpenFaaS {
    /// The environment of the function, from its `environment` setting.
    pub fn extract_environment(&self) -> (r: Option<StrMap<String>>)
        ensures
            opt_view(r) == spec_extract_environment(self.meta),
    {
        let setting = self.meta.get_workload_setting("environment");
        let array = match &setting {
            Some(v) => match v.as_array() {
                Some(a) => a,
                None => return None,
            },
            None => return None,
        };
        let ghost items = array@.map_values(|e: JsonValue| e@);
        let ghost params = self.meta.params@;
        let mut envs: StrMap<String> = StrMap::new();
        let n = array.len();
        let mut i: usize = 0;
        while i < n
            invariant
                n == array@.len(),
                items == array@.map_values(|e: JsonValue| e@),
                params == self.meta.params@,
                i <= n,
                envs@ == env_map(items.subrange(0, i as int), params),
            decreases n - i,
        {
            let e = &array[i];
            proof {
                assert(items.subrange(0, i + 1).drop_last() =~= items.subrange(0, i as int));
                assert(items.subrange(0, i + 1).last() == e@);
            }
            match (e.get("name"), e.get("fromParam")) {
                (Some(JsonValue::String(k)), Some(JsonValue::String(fp))) => {
                    let resolved: Option<&JsonValue> = match self.meta.params.get(fp.as_str()) {
                        Some(v) => Some(v),
                        None => e.get("value"),
                    };
                    match resolved {
                        Some(JsonValue::String(v)) => {
                            envs.insert(k.clone(), v.clone());
                        },
                        _ => {},
                    }
                },
                _ => {},
            }
            i = i + 1;
        }
        proof {
            assert(items.subrange(0, n as int) =~= items);
        }
        if envs.is_empty() {
            None
        } else {
            Some(envs)
        }
    }

    /// The function object of the workload: its image and handler from the
    /// settings, its environment from the `environment` setting, its name the
    /// instance name. An `image` setting that is a string is required.
    pub fn get_kube_faas(&self) -> (r: Result<KubeFaaS, MissingImage>)
        ensures
            match string_setting(self.meta, "image"@) {
                None => r is Err,
                Some(image) => r matches Ok(k) && {
                    &&& k.api_version@ == "openfaas.com/v1alpha2"@
                    &&& k.kind@ == "Function"@
                    &&& k.name@ == self.meta.instance_name@
                    &&& k.status is None
                    &&& k.spec.name@ == self.meta.instance_name@
                    &&& k.spec.image@ == image
                    &&& opt_view(k.spec.handler) == string_setting(self.meta, "handler"@)
                    &&& opt_view(k.spec.environment) == spec_extract_environment(self.meta)
                    &&& k.spec.replicas is None
                    &&& k.spec.annotations is None
                    &&& k.spec.labels is None
                    &&& k.spec.constraints is None
                    &&& k.spec.secrets is None
                    &&& k.spec.limits is None
                    &&& k.spec.requests is None
                    &&& k.spec.read_only_root_filesystem is None
                    &&& match self.meta.owner_ref {
                        Some(own) => k.owner_references@.len() == own@.len() && forall|i: int|
                            0 <= i < own@.len() ==> api_owner_of(#[trigger] k.owner_references@[i], own@[i]),
                        None => k.owner_references@.len() == 0,
                    }
                },
            },
    {
        let image = match self.meta.get_workload_setting("image") {
            Some(JsonValue::String(s)) => s,
            _ => return Err(MissingImage {}),
        };
        let handler = match self.meta.get_workload_setting("handler") {
            Some(JsonValue::String(s)) => Some(s),
            _ => None,
        };
        let spec = FunctionSpec {
            name: self.meta.instance_name.clone(),
            image,
            handler,
            environment: self.extract_environment(),
            ..Default::default()
        };
        let owner_references = match &self.meta.owner_ref {
            Some(own) => convert_owner_ref(own),
            None => Vec::new(),
        };
        Ok(
            KubeFaaS {
                api_version: "openfaas.com/v1alpha2".to_string(),
                kind: "Function".to_string(),
                name: self.meta.instance_name.clone(),
                owner_references,
                spec,
                status: None,
            },
        )
    }
}

} // verus!
