//! The health scope: components whose health is aggregated together.
use vstd::prelude::*;
use crate::instigator::{ApiOwnerReference, OwnerReference, api_owner_of, api_owner_reference};
use crate::json::{Json, JsonNumber, JsonValue, number_model, spec_as_i64, spec_as_str};
use crate::schematic::configuration::ComponentConfiguration;
use crate::schematic::parameter::{ParameterValue, extract_number_params, extract_string_params, extract_value_params, spec_extract_value};
use crate::schematic::scopes::network::{MissingScopeParam, string_param};
use crate::strings::str_eq;
use crate::strmap::{StrMap, opt_view, opt_views, views};

verus! {

/// The spec of a health scope object.
#[derive(Debug)]
pub struct HealthScope {
    pub probe_method: String,
    pub probe_endpoint: String,
    pub probe_timeout: Option<i64>,
    pub probe_interval: Option<i64>,
    pub failure_rate_threshold: Option<JsonNumber>,
    pub healthy_rate_threshold: Option<JsonNumber>,
    pub health_threshold_percentage: Option<JsonNumber>,
    pub required_healthy_components: Option<Vec<String>>,
}

/// A component instance in a health scope.
#[derive(Clone, Debug, PartialEq)]
pub struct ComponentInfo {
    pub name: String,
    pub instance_name: String,
}

/// The status of a health scope: the aggregated health, and the components
/// in the scope.
#[derive(Debug)]
pub struct HealthStatus {
    pub aggregated: Option<StrMap<StrMap<String>>>,
    pub components: Option<Vec<ComponentInfo>>,
}

impl Default for HealthStatus {
    fn default() -> (s: Self)
        ensures
            s.aggregated is None,
            s.components is None,
    {
        HealthStatus { aggregated: None, components: None }
    }
}

/// A health scope object of the cluster.
#[derive(Debug)]
pub struct HealthScopeObject {
    pub api_version: String,
    pub kind: String,
    pub name: String,
    pub owner_references: Vec<ApiOwnerReference>,
    pub spec: HealthScope,
    pub status: Option<HealthStatus>,
}

/// Health scope is defined as https://github.com/microsoft/hydra-spec/blob/master/4.application_scopes.md#health-scope
#[derive(Debug)]
pub struct Health {
    pub namespace: String,
    pub name: String,
    pub allow_component_overlap: bool,
    pub probe_method: String,
    pub probe_endpoint: String,
    pub probe_timeout: Option<i64>,
    pub probe_interval: Option<i64>,
    pub failure_rate_threshold: Option<JsonNumber>,
    pub healthy_rate_threshold: Option<JsonNumber>,
    pub health_threshold_percentage: Option<JsonNumber>,
    pub required_healthy_components: Option<Vec<String>>,
}

/// The integer value of the first parameter value of a name.
pub open spec fn int_param(name: Seq<char>, params: Seq<ParameterValue>) -> Option<i64> {
    match spec_extract_value(name, views(params)) {
        Some(v) => spec_as_i64(v),
        None => None,
    }
}

/// The number of the first parameter value of a name.
pub open spec fn number_param(name: Seq<char>, params: Seq<ParameterValue>) -> Option<crate::json::NumberModel> {
    match spec_extract_value(name, views(params)) {
        Some(Json::Number(n)) => Some(n),
        _ => None,
    }
}

/// The texts of an array's items, where all of them are strings.
pub open spec fn all_strings(items: Seq<Json>) -> Option<Seq<Seq<char>>> {
    if forall|i: int| 0 <= i < items.len() ==> (#[trigger] items[i]) is String {
        Some(items.map_values(|j: Json| spec_as_str(j)->0))
    } else {
        None
    }
}

/// The names of the components that must be healthy: the strings of the
/// parameter's array, where it is an array of strings.
pub open spec fn required_components_param(params: Seq<ParameterValue>) -> Option<Seq<Seq<char>>> {
    match spec_extract_value("required-healthy-components"@, views(params)) {
        Some(Json::Array(items)) => all_strings(items),
        _ => None,
    }
}

/// The model of a component in a scope: its name and instance name.
pub open spec fn info_view(c: ComponentInfo) -> (Seq<char>, Seq<char>) {
    (c.name@, c.instance_name@)
}

/// The components of a scope without the given one.
pub open spec fn without(cs: Seq<(Seq<char>, Seq<char>)>, c: (Seq<char>, Seq<char>)) -> Seq<(Seq<char>, Seq<char>)> {
    cs.filter(other_than(c))
}

/// Whether a component instance is not the given one.
pub open spec fn other_than(c: (Seq<char>, Seq<char>)) -> spec_fn((Seq<char>, Seq<char>)) -> bool {
    |x: (Seq<char>, Seq<char>)| x != c
}

/// The components of a scope with the given one added at the end, once.
pub open spec fn with(cs: Seq<(Seq<char>, Seq<char>)>, c: (Seq<char>, Seq<char>)) -> Seq<(Seq<char>, Seq<char>)> {
    without(cs, c).push(c)
}

/// The components a status lists, none where it lists none.
pub open spec fn status_components(s: Option<HealthStatus>) -> Seq<(Seq<char>, Seq<char>)> {
    match s {
        Some(st) => match st.components {
            Some(v) => v@.map_values(|c: ComponentInfo| info_view(c)),
            None => Seq::empty(),
        },
        None => Seq::empty(),
    }
}

/// The aggregated health a status holds.
pub open spec fn status_aggregated(s: Option<HealthStatus>) -> Option<Map<Seq<char>, Map<Seq<char>, Seq<char>>>> {
    match s {
        Some(st) => opt_view(st.aggregated),
        None => None,
    }
}

/// Creating a health scope succeeded: there was no error, or the scope
/// already existed.
pub open spec fn spec_create_succeeded(error: Option<Option<Seq<char>>>) -> bool {
    match error {
        None => true,
        Some(Some(reason)) => reason == "AlreadyExists"@,
        Some(None) => false,
    }
}

fn copy_info(c: &ComponentInfo) -> (r: ComponentInfo)
    ensures
        info_view(r) == info_view(*c),
{
    ComponentInfo { name: c.name.clone(), instance_name: c.instance_name.clone() }
}

impl Health {
    /// A health scope from its parameters: `probe-method` and
    /// `probe-endpoint` are required strings; the timeout and interval are
    /// integers, the thresholds numbers, and the required components an array
    /// of strings, each where given.
    pub fn from_params(name: String, namespace: String, params: &Vec<ParameterValue>) -> (r: Result<Health, MissingScopeParam>)
        ensures
            match string_param("probe-method"@, params@) {
                None => r matches Err(e) && e.param@ == "probe-method"@,
                Some(method) => match string_param("probe-endpoint"@, params@) {
                    None => r matches Err(e) && e.param@ == "probe-endpoint"@,
                    Some(endpoint) => r matches Ok(h) && {
                        &&& h.name == name
                        &&& h.namespace == namespace
                        &&& h.allow_component_overlap
                        &&& h.probe_method@ == method
                        &&& h.probe_endpoint@ == endpoint
                        &&& h.probe_timeout == int_param("probe-timeout"@, params@)
                        &&& h.probe_interval == int_param("probe-interval"@, params@)
                        &&& opt_number(h.failure_rate_threshold) == number_param("failure-rate-threshold"@, params@)
                        &&& opt_number(h.healthy_rate_threshold) == number_param("healthy-rate-threshold"@, params@)
                        &&& opt_number(h.health_threshold_percentage) == number_param(
                            "health-threshold-percentage"@,
                            params@,
                        )
                        &&& opt_views(h.required_healthy_components) == required_components_param(params@)
                    },
                },
            },
    {
        let probe_method = match extract_string_params("probe-method", params) {
            Some(v) => v,
            None => return Err(MissingScopeParam { param: "probe-method".to_string() }),
        };
        let probe_endpoint = match extract_string_params("probe-endpoint", params) {
            Some(v) => v,
            None => return Err(MissingScopeParam { param: "probe-endpoint".to_string() }),
        };
        let probe_timeout = match extract_value_params("probe-timeout", params) {
            Some(v) => v.as_i64(),
            None => None,
        };
        let probe_interval = match extract_value_params("probe-interval", params) {
            Some(v) => v.as_i64(),
            None => None,
        };
        let required_healthy_components = match extract_value_params("required-healthy-components", params) {
            Some(v) => match v.as_array() {
                Some(items) => strings_of(items),
                None => None,
            },
            None => None,
        };
        Ok(
            Health {
                name,
                namespace,
                allow_component_overlap: true,
                probe_method,
                probe_endpoint,
                probe_timeout,
                probe_interval,
                failure_rate_threshold: extract_number_params("failure-rate-threshold", params),
                healthy_rate_threshold: extract_number_params("healthy-rate-threshold", params),
                health_threshold_percentage: extract_number_params("health-threshold-percentage", params),
                required_healthy_components,
            },
        )
    }

    pub fn allow_overlap(&self) -> (b: bool)
        ensures
            b == self.allow_component_overlap,
    {
        self.allow_component_overlap
    }

    pub fn scope_type(&self) -> (s: String)
        ensures
            s@ == "core.hydra.io/v1alpha1.HealthScope"@,
    {
        "core.hydra.io/v1alpha1.HealthScope".to_string()
    }

    /// The health scope object to create, owned by the given owner.
    pub fn to_scope_object(&self, owner: &OwnerReference) -> (o: HealthScopeObject)
        ensures
            o.api_version@ == "core.hydra.io/v1alpha1"@,
            o.kind@ == "HealthScope"@,
            o.name@ == self.name@,
            o.owner_references@.len() == 1 && api_owner_of(o.owner_references@[0], *owner),
            o.spec.probe_method@ == self.probe_method@,
            o.spec.probe_endpoint@ == self.probe_endpoint@,
            o.spec.probe_timeout == self.probe_timeout,
            o.spec.probe_interval == self.probe_interval,
            opt_number(o.spec.failure_rate_threshold) == opt_number(self.failure_rate_threshold),
            opt_number(o.spec.healthy_rate_threshold) == opt_number(self.healthy_rate_threshold),
            opt_number(o.spec.health_threshold_percentage) == opt_number(self.health_threshold_percentage),
            opt_views(o.spec.required_healthy_components) == opt_views(self.required_healthy_components),
            o.status is None,
    {
        let mut owners: Vec<ApiOwnerReference> = Vec::new();
        owners.push(api_owner_reference(owner));
        HealthScopeObject {
            api_version: "core.hydra.io/v1alpha1".to_string(),
            kind: "HealthScope".to_string(),
            name: self.name.clone(),
            owner_references: owners,
            spec: HealthScope {
                probe_method: self.probe_method.clone(),
                probe_endpoint: self.probe_endpoint.clone(),
                probe_timeout: self.probe_timeout,
                probe_interval: self.probe_interval,
                failure_rate_threshold: copy_opt_number(&self.failure_rate_threshold),
                healthy_rate_threshold: copy_opt_number(&self.healthy_rate_threshold),
                health_threshold_percentage: copy_opt_number(&self.health_threshold_percentage),
                required_healthy_components: copy_opt_strings(&self.required_healthy_components),
            },
            status: None,
        }
    }

    /// Whether creating the scope succeeded, from the error the request gave,
    /// if any, and the reason the API gave for it, if any.
    pub fn create_succeeded(error: Option<Option<String>>) -> (b: bool)
        ensures
            b == spec_create_succeeded(
                match error {
                    None => None,
                    Some(reason) => Some(opt_view(reason)),
                },
            ),
    {
        match error {
            None => true,
            Some(Some(reason)) => str_eq(reason.as_str(), "AlreadyExists"),
            Some(None) => false,
        }
    }

    /// The components of a status without the given component instance.
    pub fn remove_one(&self, spec: &ComponentConfiguration, status: &Option<HealthStatus>) -> (r: Vec<ComponentInfo>)
        ensures
            r@.map_values(|c: ComponentInfo| info_view(c)) == without(
                status_components(*status),
                (spec.name@, spec.instance_name@),
            ),
    {
        let mut components: Vec<ComponentInfo> = Vec::new();
        let ghost target = (spec.name@, spec.instance_name@);
        match status {
            Some(st) => match &st.components {
                Some(cs) => {
                    let ghost all = cs@.map_values(|c: ComponentInfo| info_view(c));
                    let n = cs.len();
                    let mut i: usize = 0;
                    while i < n
                        invariant
                            n == cs@.len(),
                            all == cs@.map_values(|c: ComponentInfo| info_view(c)),
                            i <= n,
                            components@.map_values(|c: ComponentInfo| info_view(c)) == without(
                                all.subrange(0, i as int),
                                (spec.name@, spec.instance_name@),
                            ),
                        decreases n - i,
                    {
                        let comp = &cs[i];
                        proof {
                            let s = all.subrange(0, i + 1);
                            assert(s.drop_last() =~= all.subrange(0, i as int));
                            assert(s.last() == info_view(*comp));
                            s.filter_lemma(other_than((spec.name@, spec.instance_name@)));
                            reveal(Seq::filter);
                        }
                        let same = str_eq(comp.name.as_str(), spec.name.as_str()) && str_eq(
                            comp.instance_name.as_str(),
                            spec.instance_name.as_str(),
                        );
                        let ghost before = components@;
                        if !same {
                            components.push(copy_info(comp));
                            proof {
                                assert(components@.map_values(|c: ComponentInfo| info_view(c)) =~= before.map_values(
                                    |c: ComponentInfo| info_view(c),
                                ).push(info_view(*comp)));
                            }
                        }
                        i = i + 1;
                    }
                    proof {
                        assert(all.subrange(0, n as int) =~= all);
                    }
                },
                None => {
                    proof {
                        assert(components@.map_values(|c: ComponentInfo| info_view(c)) =~= Seq::empty());
                        reveal(Seq::filter);
                        assert(without(Seq::empty(), target) =~= Seq::empty());
                    }
                },
            },
            None => {
                proof {
                    assert(components@.map_values(|c: ComponentInfo| info_view(c)) =~= Seq::empty());
                    reveal(Seq::filter);
                    assert(without(Seq::empty(), target) =~= Seq::empty());
                }
            },
        }
        components
    }

    /// The status after adding a component instance to the scope: the
    /// aggregated health as it was, and the component listed once, last.
    pub fn added_status(&self, spec: &ComponentConfiguration, status: &Option<HealthStatus>) -> (r: HealthStatus)
        ensures
            opt_view(r.aggregated) == status_aggregated(*status),
            status_components(Some(r)) == with(status_components(*status), (spec.name@, spec.instance_name@)),
    {
        let mut components = self.remove_one(spec, status);
        let ghost before = components@;
        components.push(ComponentInfo { name: spec.name.clone(), instance_name: spec.instance_name.clone() });
        proof {
            assert(components@.map_values(|c: ComponentInfo| info_view(c)) =~= before.map_values(
                |c: ComponentInfo| info_view(c),
            ).push((spec.name@, spec.instance_name@)));
        }
        HealthStatus { aggregated: copy_aggregated(status), components: Some(components) }
    }

    /// The status after removing a component instance from the scope: the
    /// aggregated health as it was, without the component.
    pub fn removed_status(&self, spec: &ComponentConfiguration, status: &Option<HealthStatus>) -> (r: HealthStatus)
        ensures
            opt_view(r.aggregated) == status_aggregated(*status),
            status_components(Some(r)) == without(status_components(*status), (spec.name@, spec.instance_name@)),
    {
        let components = self.remove_one(spec, status);
        HealthStatus { aggregated: copy_aggregated(status), components: Some(components) }
    }
}

/// The model of an optional number.
pub open spec fn opt_number(n: Option<JsonNumber>) -> Option<crate::json::NumberModel> {
    match n {
        Some(x) => Some(number_model(x)),
        None => None,
    }
}

fn copy_opt_number(n: &Option<JsonNumber>) -> (r: Option<JsonNumber>)
    ensures
        opt_number(r) == opt_number(*n),
{
    match n {
        Some(JsonNumber::PosInt(u)) => Some(JsonNumber::PosInt(*u)),
        Some(JsonNumber::NegInt(i)) => Some(JsonNumber::NegInt(*i)),
        Some(JsonNumber::Float(t)) => Some(JsonNumber::Float(t.clone())),
        None => None,
    }
}

fn copy_opt_strings(v: &Option<Vec<String>>) -> (r: Option<Vec<String>>)
    ensures
        opt_views(r) == opt_views(*v),
{
    match v {
        Some(x) => {
            let mut out: Vec<String> = Vec::new();
            let n = x.len();
            let mut i: usize = 0;
            while i < n
                invariant
                    n == x@.len(),
                    i <= n,
                    out@.len() == i,
                    forall|j: int| 0 <= j < i ==> (#[trigger] out@[j])@ == x@[j]@,
                decreases n - i,
            {
                out.push(x[i].clone());
                i = i + 1;
            }
            assert(views(out@) =~= views(x@));
            Some(out)
        },
        None => None,
    }
}

fn copy_aggregated(status: &Option<HealthStatus>) -> (r: Option<StrMap<StrMap<String>>>)
    ensures
        opt_view(r) == status_aggregated(*status),
{
    match status {
        Some(st) => match &st.aggregated {
            Some(a) => Some(a.copy()),
            None => None,
        },
        None => None,
    }
}

fn strings_of(items: &Vec<JsonValue>) -> (r: Option<Vec<String>>)
    ensures
        opt_views(r) == all_strings(items@.map_values(|e: JsonValue| e@)),
{
    let ghost js = items@.map_values(|e: JsonValue| e@);
    let mut out: Vec<String> = Vec::new();
    let n = items.len();
    let mut i: usize = 0;
    while i < n
        invariant
            n == items@.len(),
            js == items@.map_values(|e: JsonValue| e@),
            i <= n,
            out@.len() == i,
            forall|j: int| 0 <= j < i ==> (#[trigger] js[j]) is String && spec_as_str(js[j]) == Some(out@[j]@),
        decreases n - i,
    {
        match items[i].as_str() {
            Some(s) => {
                out.push(s.clone());
            },
            None => {
                proof {
                    assert(!(js[i as int] is String));
                }
                return None;
            },
        }
        i = i + 1;
    }
    proof {
        assert(views(out@) =~= js.map_values(|j: Json| spec_as_str(j)->0));
    }
    Some(out)
}

/// Removing a component instance from a scope after adding it leaves the
/// scope's components as removing it alone does.
pub proof fn lemma_remove_after_add(cs: Seq<(Seq<char>, Seq<char>)>, c: (Seq<char>, Seq<char>))
    ensures
        without(with(cs, c), c) == without(cs, c),
{
    reveal(Seq::filter);
    let p = other_than(c);
    let w = without(cs, c);
    let pw = w.push(c);
    assert(pw.drop_last() =~= w);
    assert(pw.last() == c);
    assert(!p(c));
    assert(pw.filter(p) == pw.drop_last().filter(p));
    lemma_filter_idempotent(cs, c);
}

/// Removing a component instance that a scope does not list leaves the
/// scope's components as they are.
proof fn lemma_without_absent(cs: Seq<(Seq<char>, Seq<char>)>, c: (Seq<char>, Seq<char>))
    requires
        !cs.contains(c),
    ensures
        without(cs, c) == cs,
    decreases cs.len(),
{
    reveal(Seq::filter);
    if cs.len() > 0 {
        let d = cs.drop_last();
        assert(!d.contains(c)) by {
            if d.contains(c) {
                let i = choose|i: int| 0 <= i < d.len() && d[i] == c;
                assert(cs[i] == c);
            }
        }
        lemma_without_absent(d, c);
        assert(cs.last() != c) by {
            assert(cs[cs.len() - 1] == cs.last());
        }
        assert(d.push(cs.last()) =~= cs);
    }
}

impl Health {
    /// Removing a component instance from a health scope undoes adding it:
    /// where the scope did not list the instance, the status after
    /// `added_status` and then `removed_status` lists the components the
    /// scope had, in the same order, with the aggregated health as it was.
    pub proof fn lemma_remove_undoes_add(
        status: Option<HealthStatus>,
        added: HealthStatus,
        removed: HealthStatus,
        c: (Seq<char>, Seq<char>),
    )
        requires
            !status_components(status).contains(c),
            status_components(Some(added)) == with(status_components(status), c),
            opt_view(added.aggregated) == status_aggregated(status),
            status_components(Some(removed)) == without(status_components(Some(added)), c),
            opt_view(removed.aggregated) == status_aggregated(Some(added)),
        ensures
            without(with(status_components(status), c), c) == status_components(status),
            status_components(Some(removed)) == status_components(status),
            status_aggregated(Some(removed)) == status_aggregated(status),
    {
        lemma_remove_after_add(status_components(status), c);
        lemma_without_absent(status_components(status), c);
    }
}

/// Filtering the components twice is filtering them once.
proof fn lemma_filter_idempotent(cs: Seq<(Seq<char>, Seq<char>)>, c: (Seq<char>, Seq<char>))
    ensures
        without(without(cs, c), c) == without(cs, c),
    decreases cs.len(),
{
    reveal(Seq::filter);
    let p = other_than(c);
    if cs.len() == 0 {
        assert(without(cs, c) == cs);
    } else {
        let d = cs.drop_last();
        let l = cs.last();
        lemma_filter_idempotent(d, c);
        let w1 = d.filter(p);
        assert(w1.filter(p) == w1);
        assert(cs.filter(p) == if p(l) { w1.push(l) } else { w1 });
        if p(l) {
            let w = w1.push(l);
            assert(w.drop_last() =~= w1);
            assert(w.last() == l);
            assert(w.filter(p) == w.drop_last().filter(p).push(w.last()));
        }
    }
}

/// Adding a component instance that is already in a scope leaves the scope
/// as it was after the first addition.
pub proof fn lemma_add_idempotent(cs: Seq<(Seq<char>, Seq<char>)>, c: (Seq<char>, Seq<char>))
    ensures
        with(with(cs, c), c) == with(cs, c),
{
    lemma_remove_after_add(cs, c);
}

/// After an addition, the component instance is listed exactly once, last,
/// and every other instance keeps its place in the order.
pub proof fn lemma_added_once(cs: Seq<(Seq<char>, Seq<char>)>, c: (Seq<char>, Seq<char>))
    ensures
        with(cs, c).last() == c,
        forall|i: int| 0 <= i < with(cs, c).len() - 1 ==> with(cs, c)[i] != c,
        with(cs, c).drop_last() == without(cs, c),
{
    let w = without(cs, c);
    assert(w.push(c).drop_last() =~= w);
    assert forall|i: int| 0 <= i < w.len() implies w[i] != c by {
        cs.filter_lemma(other_than(c));
    }
}

} // verus!
