//! The decisions of the instigator, which reconciles an application
//! configuration with the objects that realize it: which components to add,
//! modify or delete, what to record of them, and when to report a status.
use vstd::prelude::*;
use crate::lifecycle::Phase;
use crate::schematic::configuration::{ComponentConfiguration, ComponentConfigurationView};
use crate::schematic::parameter::{
    Parameter, ParameterValue, ParameterValueView, ResolvedVals, UnresolvedParameter,
    ValidationErrors, resolve_parameters, resolve_values, merge_values, unresolved,
    all_parameter_errors, resolve_all,
};
use crate::schematic::variable::{
    Variable, UndefinedVariable, resolve_variables, expand_all, variable_map, refers_to_undefined,
};
use crate::strmap::{StrMap, DeepCopy, Equiv, SpecEq, views, opt_view, opt_views, vec_copy};
use crate::json::{Json, JsonValue};
use crate::kube_event::{Info, ObjectReference};
use crate::schematic::component::Component;
use crate::schematic::configuration::{ApplicationConfiguration, ScopeBinding};
use crate::schematic::scopes::{Health, Network, OAMScope};
use crate::schematic::scopes::network::{MissingScopeParam, string_param, string_param_of};
use crate::strings::str_eq;
use crate::schematic::HydraStatus;
use crate::workload_type::{Labels, ParamMap, WorkloadMetadata};

pub mod records;

verus! {

pub const CONFIG_GROUP: &'static str = "core.oam.dev";
pub const CONFIG_VERSION: &'static str = "v1alpha1";

pub const CONFIG_CRD: &'static str = "applicationconfigurations";
pub const COMPONENT_CRD: &'static str = "componentschematics";
pub const TRAIT_CRD: &'static str = "traits";
pub const SCOPE_CRD: &'static str = "scopes";
pub const COMPONENT_RECORD_ANNOTATION: &'static str = "component_record_annotation";

/// This error is returned when a component cannot be found.
#[derive(Clone, Debug, PartialEq)]
pub struct ComponentNotFoundError {
    pub name: String,
}

impl ComponentNotFoundError {
    pub fn to_string(&self) -> (s: String)
        ensures
            s@ == "Component "@ + self.name@ + " not found"@,
    {
        "Component ".to_string().concat(self.name.as_str()).concat(" not found")
    }
}

/// combine_name combine component name with instance_name,
/// so we won't afraid different components using same instance_name
pub fn combine_name(component_name: String, instance_name: String) -> (r: String)
    ensures
        r@ == component_name@ + "-"@ + instance_name@,
{
    component_name.concat("-").concat(instance_name.as_str())
}

/// An owner reference of a Kubernetes object.
#[derive(Clone, Debug, PartialEq)]
pub struct OwnerReference {
    pub api_version: String,
    pub kind: String,
    pub name: String,
    pub uid: String,
    pub controller: Option<bool>,
    pub block_owner_deletion: Option<bool>,
}

/// An owner reference as the API of custom objects writes it: its flags
/// are always given.
#[derive(Debug)]
pub struct ApiOwnerReference {
    pub api_version: String,
    pub kind: String,
    pub name: String,
    pub uid: String,
    pub block_owner_deletion: bool,
    pub controller: bool,
}

/// An owner reference of a custom object made from an owner reference:
/// flags that are not given are false.
pub open spec fn api_owner_of(f: ApiOwnerReference, o: OwnerReference) -> bool {
    &&& f.api_version == o.api_version
    &&& f.kind == o.kind
    &&& f.name == o.name
    &&& f.uid == o.uid
    &&& f.block_owner_deletion == (match o.block_owner_deletion { Some(b) => b, None => false })
    &&& f.controller == (match o.controller { Some(c) => c, None => false })
}

/// The owner reference of a custom object for an owner reference.
pub fn api_owner_reference(o: &OwnerReference) -> (r: ApiOwnerReference)
    ensures
        api_owner_of(r, *o),
{
    ApiOwnerReference {
        api_version: o.api_version.clone(),
        kind: o.kind.clone(),
        name: o.name.clone(),
        uid: o.uid.clone(),
        block_owner_deletion: match o.block_owner_deletion {
            Some(b) => b,
            None => false,
        },
        controller: match o.controller {
            Some(c) => c,
            None => false,
        },
    }
}

/// The error of a configuration that Kubernetes gave no UID.
#[derive(Clone, Debug, PartialEq)]
pub struct MissingUid {}

impl MissingUid {
    pub fn to_string(&self) -> (s: String)
        ensures
            s@ == "Mysteriously, no UID was created. Ancient version of Kubernetes?"@,
    {
        "Mysteriously, no UID was created. Ancient version of Kubernetes?".to_string()
    }
}

/// The owner reference of a configuration of a name and UID: the
/// configuration controls the objects it owns and blocks their deletion.
pub open spec fn config_owner(o: OwnerReference, name: Seq<char>, uid: Seq<char>) -> bool {
    &&& o.api_version@ == "core.oam.dev/v1alpha1"@
    &&& o.kind@ == "ApplicationConfiguration"@
    &&& o.uid@ == uid
    &&& o.name@ == name
    &&& o.controller == Some(true)
    &&& o.block_owner_deletion == Some(true)
}

/// Build an owner reference for the given parent UID of kind Configuration.
pub fn config_owner_reference(parent_name: String, parent_uid: Option<String>) -> (r: Result<
    OwnerReference,
    MissingUid,
>)
    ensures
        match parent_uid {
            Some(uid) => r matches Ok(o) && config_owner(o, parent_name@, uid@),
            None => r is Err,
        },
{
    match parent_uid {
        Some(uid) => Ok(
            OwnerReference {
                api_version: "core.oam.dev/v1alpha1".to_string(),
                kind: "ApplicationConfiguration".to_string(),
                uid,
                controller: Some(true),
                block_owner_deletion: Some(true),
                name: parent_name,
            },
        ),
        None => Err(MissingUid {}),
    }
}

/// The configuration of a component as last applied, with the version of
/// its component definition.
#[derive(Clone, Debug, PartialEq)]
pub struct ComponentRecord {
    pub config: ComponentConfiguration,
    pub version: String,
}

/// The mathematical form of a component record.
pub struct ComponentRecordView {
    pub config: ComponentConfigurationView,
    pub version: Seq<char>,
}

impl View for ComponentRecord {
    type V = ComponentRecordView;

    open spec fn view(&self) -> ComponentRecordView {
        ComponentRecordView { config: self.config@, version: self.version@ }
    }
}

impl DeepCopy for ComponentRecord {
    fn deep_copy(&self) -> (r: Self) {
        ComponentRecord { config: self.config.deep_copy(), version: self.version.clone() }
    }
}

impl Equiv for ComponentRecord {
    open spec fn normal(v: ComponentRecordView) -> ComponentRecordView {
        ComponentRecordView { config: ComponentConfiguration::normal(v.config), version: v.version }
    }

    fn equivalent(&self, other: &Self) -> (r: bool) {
        self.config.equivalent(&other.config) && self.version.same(&other.version)
    }
}

/// Two records are of the same component: the same configuration, the
/// numbers in it compared as numbers, and the same version.
pub open spec fn same_record(a: ComponentRecordView, b: ComponentRecordView) -> bool {
    ComponentRecord::normal(a) == ComponentRecord::normal(b)
}

/// The records of the components of a configuration, by instance name.
pub type RecordAnnotation = StrMap<ComponentRecord>;

/// Whether a component must be (re)applied: it has no record yet, or its
/// record differs from the new one, numbers compared as numbers.
pub fn check_diff(old: Option<ComponentRecord>, new: &ComponentRecord) -> (r: bool)
    ensures
        r == match old {
            None => true,
            Some(o) => !same_record(o@, new@),
        },
{
    match old {
        None => true,
        Some(oldr) => !oldr.equivalent(new),
    }
}

/// The parameter values given, none where none are.
pub fn get_values(values: Option<Vec<ParameterValue>>) -> (r: Vec<ParameterValue>)
    ensures
        r@ == match values {
            Some(v) => v@,
            None => Seq::<ParameterValue>::empty(),
        },
{
    match values {
        Some(v) => v,
        None => Vec::new(),
    }
}

/// What to do with one component of a configuration.
#[derive(Clone, Copy, Debug, PartialEq, Eq, Structural)]
pub enum ComponentStep {
    /// The component is as it was recorded: nothing to do.
    Unchanged,
    /// Run the given phase for the component.
    Run(Phase),
}

/// The state of a reconciliation of a configuration's components.
pub struct ReconcilePlan {
    /// The phase in effect; it turns to Modify or Add as components are found
    /// recorded or not.
    pub phase: Phase,
    /// The records not yet matched by a component of the configuration.
    pub last_components: RecordAnnotation,
    /// The records of the components seen so far.
    pub new_components: RecordAnnotation,
    /// Whether any component was applied or deleted.
    pub component_updated: bool,
}

/// The mathematical form of a reconciliation.
pub struct PlanModel {
    pub phase: Phase,
    pub last: Map<Seq<char>, ComponentRecordView>,
    pub new: Map<Seq<char>, ComponentRecordView>,
    pub updated: bool,
}

impl View for ReconcilePlan {
    type V = PlanModel;

    open spec fn view(&self) -> PlanModel {
        PlanModel {
            phase: self.phase,
            last: self.last_components@,
            new: self.new_components@,
            updated: self.component_updated,
        }
    }
}

/// The phase a component is run in: Add turns to Modify for a recorded
/// component, Modify turns to Add for one that was never recorded.
pub open spec fn adjusted_phase(phase: Phase, recorded: bool) -> Phase {
    if recorded && phase == Phase::Add {
        Phase::Modify
    } else if !recorded && phase == Phase::Modify {
        Phase::Add
    } else {
        phase
    }
}

/// One component, named by its instance name, with its new record.
pub open spec fn plan_step(m: PlanModel, name: Seq<char>, rec: ComponentRecordView) -> (
    PlanModel,
    ComponentStep,
) {
    let recorded = m.last.contains_key(name);
    let changed = !recorded || !same_record(m.last[name], rec);
    let last = m.last.remove(name);
    let new = m.new.insert(name, rec);
    if !changed {
        (PlanModel { phase: m.phase, last, new, updated: m.updated }, ComponentStep::Unchanged)
    } else {
        let phase = adjusted_phase(m.phase, recorded);
        (PlanModel { phase, last, new, updated: true }, ComponentStep::Run(phase))
    }
}

/// The phase each component runs in. A component with no record is
/// created: in an addition or a modification it runs in Add. A recorded
/// component whose record changed is patched: in an addition or a
/// modification it runs in Modify. A deletion stays a deletion. A component
/// as it was recorded does not run. Each run records the phase.
pub proof fn lemma_component_phase(m: PlanModel, name: Seq<char>, rec: ComponentRecordView)
    ensures
        !m.last.contains_key(name) && (m.phase == Phase::Add || m.phase == Phase::Modify) ==> plan_step(m, name, rec).1
            == ComponentStep::Run(Phase::Add) && plan_step(m, name, rec).0.phase == Phase::Add,
        m.last.contains_key(name) && !same_record(m.last[name], rec) && (m.phase == Phase::Add || m.phase
            == Phase::Modify) ==> plan_step(m, name, rec).1 == ComponentStep::Run(Phase::Modify) && plan_step(
            m,
            name,
            rec,
        ).0.phase == Phase::Modify,
        (!m.last.contains_key(name) || !same_record(m.last[name], rec)) && m.phase == Phase::Delete ==> plan_step(
            m,
            name,
            rec,
        ).1 == ComponentStep::Run(Phase::Delete),
        m.last.contains_key(name) && same_record(m.last[name], rec) ==> plan_step(m, name, rec).1
            == ComponentStep::Unchanged && plan_step(m, name, rec).0.phase == m.phase,
        plan_step(m, name, rec).1 != ComponentStep::Unchanged ==> plan_step(m, name, rec).0.updated,
        !plan_step(m, name, rec).0.last.contains_key(name),
        plan_step(m, name, rec).0.new.contains_key(name) && plan_step(m, name, rec).0.new[name] == rec,
{
}

/// A reconciliation over a sequence of components.
pub open spec fn run_plan(m: PlanModel, steps: Seq<(Seq<char>, ComponentRecordView)>) -> PlanModel
    decreases steps.len(),
{
    if steps.len() == 0 {
        m
    } else {
        plan_step(run_plan(m, steps.drop_last()), steps.last().0, steps.last().1).0
    }
}

/// The map that a sequence of named records makes; a later name wins.
pub open spec fn records_map(steps: Seq<(Seq<char>, ComponentRecordView)>) -> Map<
    Seq<char>,
    ComponentRecordView,
>
    decreases steps.len(),
{
    if steps.len() == 0 {
        Map::empty()
    } else {
        records_map(steps.drop_last()).insert(steps.last().0, steps.last().1)
    }
}

/// Whether any records were left over, the state after the leftovers are taken.
pub open spec fn spec_finish(m: PlanModel) -> PlanModel {
    PlanModel { updated: m.updated || m.last.len() > 0, ..m }
}

/// The phase recorded in the status at the end of a reconciliation, if any.
pub open spec fn spec_status_phase(m: PlanModel) -> Option<Phase> {
    if !m.updated || m.phase == Phase::Delete {
        None
    } else {
        Some(m.phase)
    }
}

/// The records of a reconciliation are those of the configuration's components;
/// the records left over are the old ones that no component names.
pub proof fn lemma_plan_records(m: PlanModel, steps: Seq<(Seq<char>, ComponentRecordView)>)
    ensures
        run_plan(m, steps).new == m.new.union_prefer_right(records_map(steps)),
        forall|k: Seq<char>| #[trigger] run_plan(m, steps).last.contains_key(k) <==> (m.last.contains_key(k)
            && !records_map(steps).contains_key(k)),
        forall|k: Seq<char>| #[trigger] run_plan(m, steps).last.contains_key(k) ==> run_plan(m, steps).last[k] == m.last[k],
    decreases steps.len(),
{
    if steps.len() > 0 {
        lemma_plan_records(m, steps.drop_last());
        let prev = run_plan(m, steps.drop_last());
        assert(run_plan(m, steps).new =~= m.new.union_prefer_right(records_map(steps)));
    }
}

/// A configuration whose components are all as recorded, one per instance
/// name, is reconciled without running any component and without a status
/// update.
pub proof fn lemma_unchanged_configuration_is_quiet(
    phase: Phase,
    steps: Seq<(Seq<char>, ComponentRecordView)>,
)
    requires
        forall|i: int, j: int| 0 <= i < j < steps.len() ==> (#[trigger] steps[i]).0 != (#[trigger] steps[j]).0,
    ensures
        ({
            let start = PlanModel { phase, last: records_map(steps), new: Map::empty(), updated: false };
            let end = spec_finish(run_plan(start, steps));
            &&& end.updated == false
            &&& end.phase == phase
            &&& end.new == records_map(steps)
            &&& spec_status_phase(end) is None
        }),
{
    let start = PlanModel { phase, last: records_map(steps), new: Map::empty(), updated: false };
    lemma_quiet_prefix(phase, steps, steps.len() as int);
    assert(steps.subrange(0, steps.len() as int) =~= steps);
    let end = run_plan(start, steps);
    lemma_plan_records(start, steps);
    assert(end.last =~= Map::empty());
    assert(end.new =~= records_map(steps));
}

proof fn lemma_records_map_facts(steps: Seq<(Seq<char>, ComponentRecordView)>, i: int)
    requires
        forall|a: int, b: int| 0 <= a < b < steps.len() ==> (#[trigger] steps[a]).0 != (#[trigger] steps[b]).0,
        0 <= i < steps.len(),
    ensures
        records_map(steps).contains_key(steps[i].0),
        records_map(steps)[steps[i].0] == steps[i].1,
    decreases steps.len(),
{
    if i < steps.len() - 1 {
        lemma_records_map_facts(steps.drop_last(), i);
        assert(steps.drop_last()[i] == steps[i]);
    }
}

proof fn lemma_records_map_keys(steps: Seq<(Seq<char>, ComponentRecordView)>, k: Seq<char>)
    ensures
        records_map(steps).contains_key(k) <==> exists|i: int| 0 <= i < steps.len() && steps[i].0 == k,
    decreases steps.len(),
{
    if steps.len() > 0 {
        lemma_records_map_keys(steps.drop_last(), k);
        if exists|i: int| 0 <= i < steps.len() && steps[i].0 == k {
            let i = choose|i: int| 0 <= i < steps.len() && steps[i].0 == k;
            if i < steps.len() - 1 {
                assert(steps.drop_last()[i].0 == k);
            }
        }
        if exists|i: int| 0 <= i < steps.len() - 1 && steps.drop_last()[i].0 == k {
            let i = choose|i: int| 0 <= i < steps.len() - 1 && steps.drop_last()[i].0 == k;
            assert(steps[i].0 == k);
        }
    }
}

proof fn lemma_quiet_prefix(phase: Phase, steps: Seq<(Seq<char>, ComponentRecordView)>, n: int)
    requires
        forall|i: int, j: int| 0 <= i < j < steps.len() ==> (#[trigger] steps[i]).0 != (#[trigger] steps[j]).0,
        0 <= n <= steps.len(),
    ensures
        ({
            let start = PlanModel { phase, last: records_map(steps), new: Map::empty(), updated: false };
            let m = run_plan(start, steps.subrange(0, n));
            &&& m.updated == false
            &&& m.phase == phase
            &&& forall|k: Seq<char>| #[trigger] m.last.contains_key(k) <==> exists|i: int| n <= i < steps.len() && steps[i].0 == k
            &&& forall|k: Seq<char>| #[trigger] m.last.contains_key(k) ==> m.last[k] == records_map(steps)[k]
        }),
    decreases n,
{
    let start = PlanModel { phase, last: records_map(steps), new: Map::empty(), updated: false };
    if n == 0 {
        assert(steps.subrange(0, 0) =~= Seq::<(Seq<char>, ComponentRecordView)>::empty());
        assert forall|k: Seq<char>| #[trigger] start.last.contains_key(k) <==> exists|i: int| 0 <= i < steps.len() && steps[i].0 == k by {
            lemma_records_map_keys(steps, k);
        }
    } else {
        lemma_quiet_prefix(phase, steps, n - 1);
        let prefix = steps.subrange(0, n);
        assert(prefix.drop_last() =~= steps.subrange(0, n - 1));
        let prev = run_plan(start, steps.subrange(0, n - 1));
        let name = steps[n - 1].0;
        let rec = steps[n - 1].1;
        lemma_records_map_facts(steps, n - 1);
        assert(prev.last.contains_key(name));
        assert(prev.last[name] == rec);
        let m = run_plan(start, prefix);
        assert(m == plan_step(prev, name, rec).0);
        assert forall|k: Seq<char>| #[trigger] m.last.contains_key(k) <==> exists|i: int| n <= i < steps.len() && steps[i].0 == k by {
            if m.last.contains_key(k) {
                assert(prev.last.contains_key(k) && k != name);
                let i = choose|i: int| n - 1 <= i < steps.len() && steps[i].0 == k;
                assert(i != n - 1);
            }
            if exists|i: int| n <= i < steps.len() && steps[i].0 == k {
                let i = choose|i: int| n <= i < steps.len() && steps[i].0 == k;
                assert(steps[i].0 != steps[n - 1].0);
                assert(prev.last.contains_key(k));
            }
        }
    }
}

impl ReconcilePlan {
    /// Start reconciling in a phase, with the records of the last reconciliation.
    pub fn start(phase: Phase, last_components: RecordAnnotation) -> (p: ReconcilePlan)
        ensures
            p@ == (PlanModel {
                phase,
                last: last_components@,
                new: Map::<Seq<char>, ComponentRecordView>::empty(),
                updated: false,
            }),
    {
        ReconcilePlan { phase, last_components, new_components: StrMap::new(), component_updated: false }
    }

    /// Take the next component of the configuration, with the version of its
    /// definition, and say what to do with it.
    pub fn component(&mut self, component: &ComponentConfiguration, version: &String) -> (step:
        ComponentStep)
        ensures
            (final(self)@, step) == plan_step(
                old(self)@,
                component.instance_name@,
                ComponentRecordView { config: component@, version: version@ },
            ),
            !old(self)@.last.contains_key(component.instance_name@) && (old(self).phase == Phase::Add || old(
                self,
            ).phase == Phase::Modify) ==> step == ComponentStep::Run(Phase::Add),
            old(self)@.last.contains_key(component.instance_name@) && !same_record(
                old(self)@.last[component.instance_name@],
                ComponentRecordView { config: component@, version: version@ },
            ) && (old(self).phase == Phase::Add || old(self).phase == Phase::Modify) ==> step == ComponentStep::Run(
                Phase::Modify,
            ),
            old(self)@.last.contains_key(component.instance_name@) && same_record(
                old(self)@.last[component.instance_name@],
                ComponentRecordView { config: component@, version: version@ },
            ) ==> step == ComponentStep::Unchanged,
    {
        let name = component.instance_name.as_str();
        let new_record = ComponentRecord { config: component.deep_copy(), version: version.clone() };
        let record = self.last_components.remove(name);
        let recorded = record.is_some();
        let changed = match &record {
            None => true,
            Some(r) => !r.equivalent(&new_record),
        };
        self.new_components.insert(component.instance_name.clone(), new_record);
        if !changed {
            return ComponentStep::Unchanged;
        }
        if recorded && self.phase == Phase::Add {
            self.phase = Phase::Modify;
        } else if !recorded && self.phase == Phase::Modify {
            self.phase = Phase::Add;
        }
        self.component_updated = true;
        ComponentStep::Run(self.phase)
    }

    /// The records that no component of the configuration matched, in order of
    /// instance name: their components are to be deleted.
    pub fn finish(&mut self) -> (leftover: Vec<ComponentRecord>)
        ensures
            final(self)@ == spec_finish(old(self)@),
            views(leftover@) == old(self).last_components.value_seq(),
            forall|i: int| 0 <= i < leftover@.len() ==> old(self)@.last.contains_key(old(self).last_components.key_seq()[i]),
            leftover@.len() == old(self)@.last.len(),
    {
        let n = self.last_components.len();
        let mut out: Vec<ComponentRecord> = Vec::new();
        let mut i: usize = 0;
        while i < n
            invariant
                n == self.last_components.key_seq().len(),
                i <= n,
                out@.len() == i,
                forall|j: int| 0 <= j < i ==> out@[j]@ == self.last_components.value_seq()[j],
            decreases n - i,
        {
            let r = self.last_components.value_at(i);
            out.push(r.deep_copy());
            i = i + 1;
        }
        proof {
            self.last_components.lemma_dom();
            assert(views(out@) =~= self.last_components.value_seq());
            assert forall|j: int| 0 <= j < out@.len() implies old(self)@.last.contains_key(old(self).last_components.key_seq()[j]) by {
                assert(self.last_components.key_seq().contains(self.last_components.key_seq()[j]));
            }
        }
        if n > 0 {
            self.component_updated = true;
        }
        out
    }

    /// The phase to record in the configuration's status, if there is a
    /// status to write: none where nothing was applied or deleted, or in a
    /// deletion.
    pub fn status_phase(&self) -> (r: Option<Phase>)
        ensures
            r == spec_status_phase(self@),
    {
        if !self.component_updated || self.phase == Phase::Delete {
            None
        } else {
            Some(self.phase)
        }
    }
}

/// What to do with the scopes of a scope-only configuration in a phase.
#[derive(Clone, Copy, Debug, PartialEq, Eq, Structural)]
pub enum ScopeAction {
    Create,
    Modify,
    Delete,
}

/// The action on the scopes of a configuration in a phase.
pub open spec fn spec_scope_action(phase: Phase) -> Option<ScopeAction> {
    match phase {
        Phase::Add => Some(ScopeAction::Create),
        Phase::Modify => Some(ScopeAction::Modify),
        Phase::Delete => Some(ScopeAction::Delete),
        _ => None,
    }
}

/// The scopes of a configuration follow it: adding the configuration
/// creates them, modifying it modifies them, deleting it deletes them, and
/// each action comes from one phase only.
pub proof fn lemma_scopes_follow_configuration(p: Phase, q: Phase)
    ensures
        spec_scope_action(Phase::Add) == Some(ScopeAction::Create),
        spec_scope_action(Phase::Modify) == Some(ScopeAction::Modify),
        spec_scope_action(Phase::Delete) == Some(ScopeAction::Delete),
        spec_scope_action(p) is Some && spec_scope_action(p) == spec_scope_action(q) ==> p == q,
        spec_scope_action(p) is None <==> (p == Phase::PreAdd || p == Phase::PreModify || p == Phase::PreDelete),
{
}

/// The scopes of a configuration are created, modified or deleted with it;
/// no other phase applies to them.
pub fn scope_action(phase: Phase) -> (r: Option<ScopeAction>)
    ensures
        r == spec_scope_action(phase),
        phase == Phase::Add ==> r == Some(ScopeAction::Create),
        phase == Phase::Modify ==> r == Some(ScopeAction::Modify),
        phase == Phase::Delete ==> r == Some(ScopeAction::Delete),
        r is None <==> (phase == Phase::PreAdd || phase == Phase::PreModify || phase == Phase::PreDelete),
{
    match phase {
        Phase::Add => Some(ScopeAction::Create),
        Phase::Modify => Some(ScopeAction::Modify),
        Phase::Delete => Some(ScopeAction::Delete),
        _ => None,
    }
}

/// What a reconciliation works on: the scopes of a configuration of scope
/// instances, with the action of the phase on them (none in a phase scopes
/// do not have), or its components.
#[derive(Debug, PartialEq)]
pub enum ReconcileStart {
    Scopes(Option<ScopeAction>),
    Components,
}

/// The first step of a reconciliation, before any request: a configuration
/// without a UID fails; otherwise its owner reference is made, and a
/// configuration with scopes is one of scope instances only.
pub fn reconcile_start(config_name: String, uid: Option<String>, has_scopes: bool, phase: Phase) -> (r: Result<
    (OwnerReference, ReconcileStart),
    MissingUid,
>)
    ensures
        match uid {
            None => r is Err,
            Some(u) => r matches Ok((o, start)) && config_owner(o, config_name@, u@) && start == if has_scopes {
                ReconcileStart::Scopes(spec_scope_action(phase))
            } else {
                ReconcileStart::Components
            },
        },
        uid is Some && has_scopes && phase == Phase::Add ==> r matches Ok((_, ReconcileStart::Scopes(Some(ScopeAction::Create)))),
        uid is Some && has_scopes && phase == Phase::Modify ==> r matches Ok((_, ReconcileStart::Scopes(Some(ScopeAction::Modify)))),
        uid is Some && has_scopes && phase == Phase::Delete ==> r matches Ok((_, ReconcileStart::Scopes(Some(ScopeAction::Delete)))),
{
    let owner = match config_owner_reference(config_name, uid) {
        Ok(o) => o,
        Err(e) => return Err(e),
    };
    if has_scopes {
        Ok((owner, ReconcileStart::Scopes(scope_action(phase))))
    } else {
        Ok((owner, ReconcileStart::Components))
    }
}

/// The error of two scopes of one type that may not overlap.
#[derive(Clone, Debug, PartialEq)]
pub struct ScopeOverlap {
    pub scope: String,
    pub scope_type: String,
}

impl ScopeOverlap {
    pub fn to_string(&self) -> (s: String)
        ensures
            s@ == "scope "@ + self.scope@ + " "@ + self.scope_type@ + " do not allow overlap"@,
    {
        "scope ".to_string().concat(self.scope.as_str()).concat(" ").concat(self.scope_type.as_str()).concat(
            " do not allow overlap",
        )
    }
}

/// Admits a component into a scope of a type: a scope that does not allow
/// overlap admits it into one scope of its type only.
pub fn check_scope_overlap(
    seen: &mut StrMap<bool>,
    scope: &String,
    scope_type: &String,
    allow_overlap: bool,
) -> (r: Result<(), ScopeOverlap>)
    ensures
        allow_overlap ==> r is Ok && final(seen)@ == old(seen)@,
        !allow_overlap ==> match r {
            Ok(()) => !old(seen)@.contains_key(scope_type@) && final(seen)@ == old(seen)@.insert(scope_type@, true),
            Err(e) => old(seen)@.contains_key(scope_type@) && final(seen)@ == old(seen)@ && e.scope@ == scope@ && e.scope_type@ == scope_type@,
        },
{
    if !allow_overlap {
        if seen.contains_key(scope_type.as_str()) {
            return Err(ScopeOverlap { scope: scope.clone(), scope_type: scope_type.clone() });
        }
        seen.insert(scope_type.clone(), true);
    }
    Ok(())
}

/// Why a component's parameters could not be resolved.
#[derive(Debug)]
pub enum ParameterError {
    Variable(UndefinedVariable),
    Unresolved(UnresolvedParameter),
    Invalid(ValidationErrors),
}

/// The parameter values given, none where none are.
pub open spec fn given_values(values: Option<Vec<ParameterValue>>) -> Seq<ParameterValueView> {
    match values {
        Some(v) => views(v@),
        None => Seq::empty(),
    }
}

/// Some value refers to a variable that is not defined.
pub open spec fn has_undefined_reference(given: Seq<ParameterValueView>, vars: Map<Seq<char>, crate::json::Json>) -> bool {
    exists|j: int| 0 <= j < given.len() && refers_to_undefined((#[trigger] given[j]).value, vars)
}

/// Some value names a parameter it cannot be resolved from.
pub open spec fn has_unresolved(values: Seq<ParameterValueView>) -> bool {
    exists|j: int| 0 <= j < values.len() && unresolved(#[trigger] values[j], Seq::empty())
}

/// The parameter values of a component with their variables expanded.
pub open spec fn expanded_values(vars: Seq<Variable>, values: Option<Vec<ParameterValue>>) -> Seq<
    ParameterValueView,
> {
    expand_all(given_values(values), variable_map(vars))
}

/// Resolves the parameters of a component instance: expands the variables
/// in its values, resolves `fromParam` references among them, and checks the
/// result against the component's parameter definitions.
pub fn resolve_component_parameters(
    variables: &Vec<Variable>,
    values: &Option<Vec<ParameterValue>>,
    definition: &Vec<Parameter>,
) -> (r: Result<ResolvedVals, ParameterError>)
    ensures
        has_undefined_reference(given_values(*values), variable_map(variables@)) ==> r matches Err(ParameterError::Variable(_)),
        !has_undefined_reference(given_values(*values), variable_map(variables@)) && has_unresolved(expanded_values(variables@, *values))
            ==> r matches Err(ParameterError::Unresolved(_)),
        !has_undefined_reference(given_values(*values), variable_map(variables@)) && !has_unresolved(expanded_values(variables@, *values))
            ==> match r {
                Ok(m) => all_parameter_errors(definition@, merge_values(expanded_values(variables@, *values), Seq::empty())).len() == 0
                    && m@ == resolve_all(definition@, merge_values(expanded_values(variables@, *values), Seq::empty())),
                Err(ParameterError::Invalid(e)) => views(e.errs@) == all_parameter_errors(
                    definition@,
                    merge_values(expanded_values(variables@, *values), Seq::empty()),
                ) && e.errs@.len() > 0,
                _ => false,
            },
{
    let given: Vec<ParameterValue> = match values {
        Some(v) => vec_copy(v),
        None => Vec::new(),
    };
    let ghost gv = views(given@);
    let ghost vmap = variable_map(variables@);
    assert(gv =~= given_values(*values));
    let child = match resolve_variables(&given, variables) {
        Ok(c) => c,
        Err(e) => {
            proof {
                let i = choose|i: int|
                    0 <= i < given@.len() && refers_to_undefined(
                        crate::strmap::opt_view(#[trigger] given@[i].value),
                        vmap,
                    );
                assert(gv[i].value == crate::strmap::opt_view(given@[i].value));
                assert(has_undefined_reference(gv, vmap));
            }
            return Err(ParameterError::Variable(e));
        },
    };
    proof {
        if has_undefined_reference(gv, vmap) {
            let j = choose|j: int| 0 <= j < gv.len() && refers_to_undefined((#[trigger] gv[j]).value, vmap);
            assert(gv[j].value == crate::strmap::opt_view(given@[j].value));
        }
    }
    let empty: Vec<ParameterValue> = Vec::new();
    assert(views(empty@) =~= Seq::<ParameterValueView>::empty());
    let vals = match resolve_values(&child, &empty) {
        Ok(v) => v,
        Err(e) => {
            proof {
                let i = choose|i: int| 0 <= i < child@.len() && unresolved(#[trigger] views(child@)[i], views(empty@));
                assert(unresolved(expanded_values(variables@, *values)[i], Seq::empty()));
            }
            return Err(ParameterError::Unresolved(e));
        },
    };
    proof {
        if has_unresolved(expanded_values(variables@, *values)) {
            let j = choose|j: int| 0 <= j < child@.len() && unresolved(#[trigger] expanded_values(variables@, *values)[j], Seq::empty());
            assert(unresolved(views(child@)[j], views(empty@)));
        }
    }
    match resolve_parameters(definition, &vals) {
        Ok(m) => Ok(m),
        Err(e) => {
            assert(views(e.errs@) =~= e.errs@.map_values(|s: String| s@));
            Err(ParameterError::Invalid(e))
        },
    }
}

/// What a workload's status says of its health: healthy where every resource
/// is running, created or succeeded.
pub open spec fn is_healthy_state(s: Seq<char>) -> bool {
    s == "running"@ || s == "created"@ || s == "succeeded"@
}

/// The states that count as healthy are exactly those a working resource
/// reports: a deployment or stateful set running, a service created, a job
/// running or succeeded. A failed job, an unavailable or updating
/// deployment, a missing service, or an error text is unhealthy.
pub proof fn lemma_healthy_states(s: Seq<char>)
    ensures
        is_healthy_state(s) <==> (s == "running"@ || s == "created"@ || s == "succeeded"@),
        is_healthy_state("succeeded"@),
        is_healthy_state("running"@),
        is_healthy_state("created"@),
        !is_healthy_state("failed"@),
        !is_healthy_state("unavailable"@),
        !is_healthy_state("updating"@),
        !is_healthy_state("not existed"@),
{
    reveal_strlit("succeeded");
    reveal_strlit("running");
    reveal_strlit("created");
    reveal_strlit("failed");
    reveal_strlit("unavailable");
    reveal_strlit("updating");
    reveal_strlit("not existed");
    assert("failed"@ != "running"@ && "failed"@ != "created"@ && "failed"@ != "succeeded"@) by {
        assert("failed"@[0] != "running"@[0]);
        assert("failed"@[0] != "created"@[0]);
        assert("failed"@[0] != "succeeded"@[0]);
    }
    assert("unavailable"@ != "running"@ && "unavailable"@ != "created"@ && "unavailable"@ != "succeeded"@) by {
        assert("unavailable"@[0] != "running"@[0]);
        assert("unavailable"@[0] != "created"@[0]);
        assert("unavailable"@[0] != "succeeded"@[0]);
    }
    assert("updating"@ != "running"@ && "updating"@ != "created"@ && "updating"@ != "succeeded"@) by {
        assert("updating"@[0] != "running"@[0]);
        assert("updating"@[0] != "created"@[0]);
        assert("updating"@[0] != "succeeded"@[0]);
    }
    assert("not existed"@ != "running"@ && "not existed"@ != "created"@ && "not existed"@ != "succeeded"@) by {
        assert("not existed"@[0] != "running"@[0]);
        assert("not existed"@[0] != "created"@[0]);
        assert("not existed"@[0] != "succeeded"@[0]);
    }
}

/// The health of a component instance from the states of its resources.
pub fn health_state(status: &StrMap<String>) -> (s: String)
    ensures
        s@ == if (forall|k: Seq<char>| #[trigger] status@.contains_key(k) ==> is_healthy_state(status@[k])) {
            "healthy"@
        } else {
            "unhealthy"@
        },
        s@ == "healthy"@ <==> (forall|k: Seq<char>| #[trigger] status@.contains_key(k) ==> (status@[k] == "running"@
            || status@[k] == "created"@ || status@[k] == "succeeded"@)),
        s@ == "healthy"@ || s@ == "unhealthy"@,
{
    let n = status.len();
    let mut i: usize = 0;
    proof {
        status.lemma_dom();
    }
    while i < n
        invariant
            n == status.key_seq().len(),
            i <= n,
            forall|j: int| 0 <= j < i ==> is_healthy_state(status@[#[trigger] status.key_seq()[j]]),
        decreases n - i,
    {
        let v = status.value_at(i);
        let ok = crate::strings::str_eq(v.as_str(), "running") || crate::strings::str_eq(v.as_str(), "created")
            || crate::strings::str_eq(v.as_str(), "succeeded");
        if !ok {
            proof {
                status.lemma_dom();
                assert(status.key_seq().contains(status.key_seq()[i as int]));
                assert(status@.contains_key(status.key_seq()[i as int]));
                reveal_strlit("healthy");
                reveal_strlit("unhealthy");
                assert("healthy"@[0] != "unhealthy"@[0]);
            }
            return "unhealthy".to_string();
        }
        i = i + 1;
    }
    proof {
        status.lemma_dom();
        assert forall|k: Seq<char>| #[trigger] status@.contains_key(k) implies is_healthy_state(status@[k]) by {
            let j = choose|j: int| 0 <= j < status.key_seq().len() && status.key_seq()[j] == k;
        }
    }
    "healthy".to_string()
}

/// The state of a status synchronization of a configuration's components.
pub struct SyncPlan {
    /// The records not yet matched by a component of the configuration.
    pub last_components: RecordAnnotation,
    /// Whether a component differs from its record: an update is under way.
    pub has_diff: bool,
    /// The status of each component read so far, by component name.
    pub component_status: StrMap<StrMap<String>>,
}

/// The status of a component: the status of its workload, with the statuses
/// of its traits written over it.
pub fn component_sync_status(workload: StrMap<String>, traits: Option<StrMap<String>>) -> (r: StrMap<String>)
    ensures
        r@ == match traits {
            Some(t) => workload@.union_prefer_right(t@),
            None => workload@,
        },
{
    let mut status = workload;
    match traits {
        Some(t) => status.extend_from(&t),
        None => {},
    }
    status
}

impl SyncPlan {
    pub fn start(last_components: RecordAnnotation) -> (p: SyncPlan)
        ensures
            p.last_components@ == last_components@,
            !p.has_diff,
            p.component_status@ == Map::<Seq<char>, Map<Seq<char>, Seq<char>>>::empty(),
    {
        SyncPlan { last_components, has_diff: false, component_status: StrMap::new() }
    }

    /// Record the status of a component that was read.
    pub fn record_status(&mut self, component_name: String, status: StrMap<String>)
        ensures
            final(self).component_status@ == old(self).component_status@.insert(component_name@, status@),
            final(self).last_components@ == old(self).last_components@,
            final(self).has_diff == old(self).has_diff,
    {
        self.component_status.insert(component_name, status);
    }

    /// The status to write once every component was taken: `synced`, with
    /// the status of each component; none where the status may not be
    /// written.
    pub fn synced_status(self) -> (r: Option<HydraStatus>)
        ensures
            r is Some <==> (!self.has_diff && self.last_components@.len() == 0),
            r matches Some(h) ==> opt_view(h.phase) == Some("synced"@) && (h.components matches Some(c)
                && c@ == self.component_status@),
    {
        if self.should_patch() {
            Some(HydraStatus::new(Some("synced".to_string()), Some(self.component_status)))
        } else {
            None
        }
    }

    /// Take the next component, with the version of its definition; say
    /// whether its status is to be read (it is as recorded).
    pub fn component(&mut self, component: &ComponentConfiguration, version: &String) -> (read: bool)
        ensures
            ({
                let name = component.instance_name@;
                let rec = ComponentRecordView { config: component@, version: version@ };
                let same = old(self).last_components@.contains_key(name) && same_record(old(self).last_components@[name], rec);
                &&& final(self).last_components@ == old(self).last_components@.remove(name)
                &&& read == same
                &&& final(self).has_diff == (old(self).has_diff || !same)
                &&& final(self).component_status@ == old(self).component_status@
            }),
    {
        let new_record = ComponentRecord { config: component.deep_copy(), version: version.clone() };
        let record = self.last_components.remove(component.instance_name.as_str());
        let same = match &record {
            None => false,
            Some(r) => r.equivalent(&new_record),
        };
        if !same {
            self.has_diff = true;
        }
        same
    }

    /// Whether the status may be written: no component is being updated and
    /// none is left to delete.
    pub fn should_patch(&self) -> (b: bool)
        ensures
            b == (!self.has_diff && self.last_components@.len() == 0),
    {
        !self.has_diff && self.last_components.is_empty()
    }
}


/// Why the scopes of a configuration cannot be loaded.
#[derive(Debug)]
pub enum ScopeError {
    /// A binding names a scope type that is not known.
    Unknown { instance_name: String, scope_type: String },
    /// A required parameter of a scope is missing.
    Missing(MissingScopeParam),
}

impl ScopeError {
    pub fn to_string(&self) -> (s: String)
        ensures
            s@ == match self {
                ScopeError::Unknown { instance_name, scope_type } => "unknown scope "@ + instance_name@ + " type "@
                    + scope_type@,
                ScopeError::Missing(m) => m.param@ + " is not exist"@,
            },
    {
        match self {
            ScopeError::Unknown { instance_name, scope_type } => "unknown scope ".to_string().concat(
                instance_name.as_str(),
            ).concat(" type ").concat(scope_type.as_str()),
            ScopeError::Missing(m) => m.to_string(),
        }
    }
}

/// Loading a scope of a type from its parameters fails: the type is not
/// known, or a required parameter is missing.
pub open spec fn scope_fails(scope_type: Seq<char>, params: Seq<ParameterValueView>) -> bool {
    if scope_type == "core.hydra.io/v1alpha1.NetworkScope"@ {
        string_param_of("network-id"@, params) is None || string_param_of("subnet-id"@, params) is None
    } else if scope_type == "core.hydra.io/v1alpha1.HealthScope"@ {
        string_param_of("probe-method"@, params) is None || string_param_of("probe-endpoint"@, params) is None
    } else {
        true
    }
}

/// The scope a binding of a type loads, for an instance, from its parameters:
/// a network or a health scope; an error for any other type.
pub open spec fn scope_loaded(r: Result<OAMScope, ScopeError>, namespace: Seq<char>, instance_name: Seq<char>, scope_type: Seq<char>, params: Seq<ParameterValueView>) -> bool {
    &&& (r is Err <==> scope_fails(scope_type, params))
    &&& if scope_type == "core.hydra.io/v1alpha1.NetworkScope"@ {
        match string_param_of("network-id"@, params) {
            None => r matches Err(ScopeError::Missing(m)) && m.param@ == "network-id"@,
            Some(nid) => match string_param_of("subnet-id"@, params) {
                None => r matches Err(ScopeError::Missing(m)) && m.param@ == "subnet-id"@,
                Some(sid) => r matches Ok(OAMScope::Network(n)) && n.name@ == instance_name && n.network_id@ == nid
                    && n.subnet_id@ == sid,
            },
        }
    } else if scope_type == "core.hydra.io/v1alpha1.HealthScope"@ {
        match string_param_of("probe-method"@, params) {
            None => r matches Err(ScopeError::Missing(m)) && m.param@ == "probe-method"@,
            Some(method) => match string_param_of("probe-endpoint"@, params) {
                None => r matches Err(ScopeError::Missing(m)) && m.param@ == "probe-endpoint"@,
                Some(endpoint) => r matches Ok(OAMScope::Health(h)) && h.name@ == instance_name && h.namespace@
                    == namespace && h.probe_method@ == method && h.probe_endpoint@ == endpoint,
            },
        }
    } else {
        r matches Err(ScopeError::Unknown { instance_name: i, scope_type: t }) && i@ == instance_name && t@
            == scope_type
    }
}

/// Loads a scope of a type for an instance from its parameters.
pub fn load_scope_by_type(namespace: &String, instance_name: &String, scope_type: &str, params: &Vec<ParameterValue>) -> (r: Result<OAMScope, ScopeError>)
    ensures
        scope_loaded(r, namespace@, instance_name@, scope_type@, views(params@)),
{
    if str_eq(scope_type, "core.hydra.io/v1alpha1.NetworkScope") {
        match Network::from_params(instance_name.clone(), params) {
            Ok(n) => Ok(OAMScope::Network(n)),
            Err(e) => Err(ScopeError::Missing(e)),
        }
    } else if str_eq(scope_type, "core.hydra.io/v1alpha1.HealthScope") {
        match Health::from_params(instance_name.clone(), namespace.clone(), params) {
            Ok(h) => Ok(OAMScope::Health(h)),
            Err(e) => Err(ScopeError::Missing(e)),
        }
    } else {
        Err(ScopeError::Unknown { instance_name: instance_name.clone(), scope_type: scope_type.to_string() })
    }
}

/// The parameter values of a scope binding refer to no undefined variable.
pub open spec fn binding_resolvable(b: ScopeBinding, vars: Seq<Variable>) -> bool {
    match b.parameter_values {
        Some(vs) => forall|j: int| 0 <= j < vs@.len() ==> !refers_to_undefined(
            opt_view(#[trigger] vs@[j].value),
            variable_map(vars),
        ),
        None => true,
    }
}

/// The scope bindings of a configuration.
pub open spec fn scope_bindings(spec: ApplicationConfiguration) -> Seq<ScopeBinding> {
    match spec.scopes {
        Some(v) => v@,
        None => Seq::empty(),
    }
}

/// The parameters of a scope binding, with its variables resolved.
pub open spec fn binding_params(b: ScopeBinding, vars: Seq<Variable>) -> Seq<ParameterValueView> {
    match b.parameter_values {
        Some(vs) => expand_all(views(vs@), variable_map(vars)),
        None => Seq::empty(),
    }
}

/// The scopes of the bindings loaded in order: one scope per binding, its
/// parameters resolved against the variables; or the error of the first
/// binding that cannot be loaded.
pub open spec fn scopes_loaded(
    r: Result<Vec<OAMScope>, ScopeError>,
    namespace: Seq<char>,
    instance_name: Seq<char>,
    bs: Seq<ScopeBinding>,
    vars: Seq<Variable>,
) -> bool {
    match r {
        Ok(scopes) => scopes@.len() == bs.len() && forall|i: int|
            0 <= i < scopes@.len() ==> scope_loaded(
                Ok(#[trigger] scopes@[i]),
                namespace,
                instance_name,
                bs[i].scope_type@,
                binding_params(bs[i], vars),
            ),
        Err(e) => exists|i: int|
            0 <= i < bs.len() && scope_loaded(
                Err(e),
                namespace,
                instance_name,
                (#[trigger] bs[i]).scope_type@,
                binding_params(bs[i], vars),
            ) && forall|j: int| 0 <= j < i ==> !scope_fails((#[trigger] bs[j]).scope_type@, binding_params(bs[j], vars)),
    }
}

/// Load application scopes from scope_bindings: one scope per binding, in
/// order, its parameters resolved against the variables; the first binding
/// that cannot be loaded gives the error.
pub fn load_scopes(namespace: &String, instance_name: &String, spec: &ApplicationConfiguration, variables: &Vec<Variable>) -> (r: Result<Vec<OAMScope>, ScopeError>)
    requires
        forall|i: int| 0 <= i < scope_bindings(*spec).len() ==> binding_resolvable(#[trigger] scope_bindings(*spec)[i], variables@),
    ensures
        scopes_loaded(r, namespace@, instance_name@, scope_bindings(*spec), variables@),
{
    let mut scopes: Vec<OAMScope> = Vec::new();
    let ghost bs = scope_bindings(*spec);
    match &spec.scopes {
        Some(bindings) => {
            let n = bindings.len();
            proof {
                assert forall|k: int| 0 <= k < n implies binding_resolvable(#[trigger] bindings@[k], variables@) by {
                    assert(scope_bindings(*spec)[k] == bindings@[k]);
                }
            }
            let mut i: usize = 0;
            while i < n
                invariant
                    n == bindings@.len(),
                    bindings@ == bs,
                    bs == scope_bindings(*spec),
                    forall|k: int| 0 <= k < n ==> binding_resolvable(#[trigger] bindings@[k], variables@),
                    i <= n,
                    scopes@.len() == i,
                    forall|j: int|
                        0 <= j < i ==> scope_loaded(
                            Ok(#[trigger] scopes@[j]),
                            namespace@,
                            instance_name@,
                            bs[j].scope_type@,
                            binding_params(bs[j], variables@),
                        ),
                decreases n - i,
            {
                let sc = &bindings[i];
                assert(binding_resolvable(bindings@[i as int], variables@));
                let param = match &sc.parameter_values {
                    Some(values) => match resolve_variables(values, variables) {
                        Ok(p) => p,
                        Err(_) => Vec::new(),
                    },
                    None => Vec::new(),
                };
                proof {
                    if sc.parameter_values is None {
                        assert(views(param@) =~= Seq::<ParameterValueView>::empty());
                    }
                }
                match load_scope_by_type(namespace, instance_name, sc.scope_type.as_str(), &param) {
                    Ok(scope) => {
                        scopes.push(scope);
                    },
                    Err(e) => {
                        proof {
                            assert forall|j: int| 0 <= j < i implies !scope_fails(
                                (#[trigger] bs[j]).scope_type@,
                                binding_params(bs[j], variables@),
                            ) by {
                                assert(scope_loaded(
                                    Ok(scopes@[j]),
                                    namespace@,
                                    instance_name@,
                                    bs[j].scope_type@,
                                    binding_params(bs[j], variables@),
                                ));
                            }
                        }
                        return Err(e);
                    },
                }
                i = i + 1;
            }
        },
        None => {},
    }
    Ok(scopes)
}

/// The scopes of a configuration read from the cluster: each of its scope
/// bindings loaded for the configuration, against its own variables.
pub fn get_scope_instance(namespace: &String, config_name: &String, spec: &ApplicationConfiguration) -> (r: Result<Vec<OAMScope>, ScopeError>)
    requires
        forall|i: int| 0 <= i < scope_bindings(*spec).len() ==> binding_resolvable(
            #[trigger] scope_bindings(*spec)[i],
            match spec.variables {
                Some(v) => v@,
                None => Seq::empty(),
            },
        ),
    ensures
        scopes_loaded(
            r,
            namespace@,
            config_name@,
            scope_bindings(*spec),
            match spec.variables {
                Some(v) => v@,
                None => Seq::empty(),
            },
        ),
{
    let empty: Vec<Variable> = Vec::new();
    let vars = match &spec.variables {
        Some(v) => v,
        None => &empty,
    };
    load_scopes(namespace, config_name, spec, vars)
}

/// The apiVersion of OAM objects.
pub open spec fn oam_api_version() -> Seq<char> {
    "core.oam.dev/v1alpha1"@
}

/// The component instance object for an instance of a configuration: its
/// owner is the configuration, as controller; it has no traits yet.
pub open spec fn spec_component_instance_object(name: Seq<char>, owner: OwnerReference) -> Json {
    Json::Object(
        seq![
            ("apiVersion"@, Json::String(oam_api_version())),
            ("kind"@, Json::String("ComponentInstance"@)),
            (
                "metadata"@,
                Json::Object(
                    seq![
                        ("name"@, Json::String(name)),
                        (
                            "ownerReferences"@,
                            Json::Array(
                                seq![
                                    Json::Object(
                                        seq![
                                            ("apiVersion"@, Json::String(oam_api_version())),
                                            ("blockOwnerDeletion"@, Json::Bool(true)),
                                            ("controller"@, Json::Bool(true)),
                                            ("kind"@, Json::String("ApplicationConfiguration"@)),
                                            ("name"@, Json::String(owner.name@)),
                                            ("uid"@, Json::String(owner.uid@)),
                                        ],
                                    ),
                                ],
                            ),
                        ),
                    ],
                ),
            ),
            ("spec"@, Json::Object(seq![("traits"@, Json::Array(Seq::empty()))])),
        ],
    )
}

fn string_json(s: &str) -> (v: JsonValue)
    ensures
        v@ == Json::String(s@),
{
    JsonValue::String(s.to_string())
}

/// The object that creates the component instance of a component and an
/// instance, owned by the configuration.
pub fn component_instance_object(component_name: String, instance_name: String, owner: &OwnerReference) -> (v: JsonValue)
    ensures
        v@ == spec_component_instance_object(component_name@ + "-"@ + instance_name@, *owner),
{
    let name = combine_name(component_name, instance_name);
    let mut own: Vec<(String, JsonValue)> = Vec::new();
    own.push(("apiVersion".to_string(), string_json("core.oam.dev/v1alpha1")));
    own.push(("blockOwnerDeletion".to_string(), JsonValue::Bool(true)));
    own.push(("controller".to_string(), JsonValue::Bool(true)));
    own.push(("kind".to_string(), string_json("ApplicationConfiguration")));
    own.push(("name".to_string(), JsonValue::String(owner.name.clone())));
    own.push(("uid".to_string(), JsonValue::String(owner.uid.clone())));
    let ghost own_model = own@.map_values(|e: (String, JsonValue)| (e.0@, e.1@));
    let own_obj = JsonValue::object(own);
    let mut owners: Vec<JsonValue> = Vec::new();
    owners.push(own_obj);
    let ghost owners_model = owners@.map_values(|e: JsonValue| e@);
    let owners_arr = JsonValue::array(owners);
    let mut metadata: Vec<(String, JsonValue)> = Vec::new();
    metadata.push(("name".to_string(), JsonValue::String(name)));
    metadata.push(("ownerReferences".to_string(), owners_arr));
    let ghost metadata_model = metadata@.map_values(|e: (String, JsonValue)| (e.0@, e.1@));
    let metadata_obj = JsonValue::object(metadata);
    let mut traits: Vec<(String, JsonValue)> = Vec::new();
    traits.push(("traits".to_string(), JsonValue::array(Vec::new())));
    let ghost traits_model = traits@.map_values(|e: (String, JsonValue)| (e.0@, e.1@));
    let spec_obj = JsonValue::object(traits);
    let mut top: Vec<(String, JsonValue)> = Vec::new();
    top.push(("apiVersion".to_string(), string_json("core.oam.dev/v1alpha1")));
    top.push(("kind".to_string(), string_json("ComponentInstance")));
    top.push(("metadata".to_string(), metadata_obj));
    top.push(("spec".to_string(), spec_obj));
    proof {
        let o = Json::Object(
            seq![
                ("apiVersion"@, Json::String(oam_api_version())),
                ("blockOwnerDeletion"@, Json::Bool(true)),
                ("controller"@, Json::Bool(true)),
                ("kind"@, Json::String("ApplicationConfiguration"@)),
                ("name"@, Json::String(owner.name@)),
                ("uid"@, Json::String(owner.uid@)),
            ],
        );
        assert(own_model =~= seq![
            ("apiVersion"@, Json::String(oam_api_version())),
            ("blockOwnerDeletion"@, Json::Bool(true)),
            ("controller"@, Json::Bool(true)),
            ("kind"@, Json::String("ApplicationConfiguration"@)),
            ("name"@, Json::String(owner.name@)),
            ("uid"@, Json::String(owner.uid@)),
        ]);
        assert(owners_model =~= seq![o]);
        assert(Seq::<JsonValue>::empty().map_values(|e: JsonValue| e@) =~= Seq::<Json>::empty());
        assert(traits_model =~= seq![("traits"@, Json::Array(Seq::empty()))]);
        assert(metadata_model =~= seq![
            ("name"@, Json::String(component_name@ + "-"@ + instance_name@)),
            ("ownerReferences"@, Json::Array(seq![o])),
        ]);
    }
    let v = JsonValue::object(top);
    proof {
        let t = top@.map_values(|e: (String, JsonValue)| (e.0@, e.1@));
        match spec_component_instance_object(component_name@ + "-"@ + instance_name@, *owner) {
            Json::Object(es) => {
                assert(t =~= es);
            },
            _ => {},
        }
    }
    v
}

/// Creating the component instance failed only because it already exists:
/// it is then read instead.
pub fn already_exists(reason: &Option<String>) -> (b: bool)
    ensures
        b == (reason matches Some(r) && r@ == "AlreadyExists"@),
{
    match reason {
        Some(r) => str_eq(r.as_str(), "AlreadyExists"),
        None => false,
    }
}

/// The error of a component instance that Kubernetes gave no UID.
#[derive(Debug, PartialEq)]
pub struct MissingInstanceUid {}

impl MissingInstanceUid {
    pub fn to_string(&self) -> (s: String)
        ensures
            s@ == "UID was not set on component instance"@,
    {
        "UID was not set on component instance".to_string()
    }
}

/// The owners of what a component instance creates: the instance itself, as
/// controller, by its name and UID.
pub open spec fn instance_owners(owners: Seq<OwnerReference>, name: Seq<char>, uid: Seq<char>) -> bool {
    &&& owners.len() == 1
    &&& owners[0].api_version@ == oam_api_version()
    &&& owners[0].kind@ == "ComponentInstance"@
    &&& owners[0].uid@ == uid
    &&& owners[0].name@ == name
    &&& owners[0].controller == Some(true)
    &&& owners[0].block_owner_deletion == Some(true)
}

/// The owners of what a component instance creates, from the instance's name
/// and the UID Kubernetes gave it; an error where it gave none.
pub fn instance_owner_reference(name: String, uid: Option<String>) -> (r: Result<Vec<OwnerReference>, MissingInstanceUid>)
    ensures
        match uid {
            None => r is Err,
            Some(u) => r matches Ok(v) && instance_owners(v@, name@, u@),
        },
{
    match uid {
        None => Err(MissingInstanceUid {}),
        Some(u) => {
            let mut owners: Vec<OwnerReference> = Vec::new();
            owners.push(
                OwnerReference {
                    api_version: "core.oam.dev/v1alpha1".to_string(),
                    kind: "ComponentInstance".to_string(),
                    uid: u,
                    controller: Some(true),
                    block_owner_deletion: Some(true),
                    name,
                },
            );
            Ok(owners)
        },
    }
}

/// How a phase finds the owners of what a component instance creates.
#[derive(Debug, PartialEq, Eq, Structural)]
pub enum OwnerLookup {
    /// Create the component instance.
    Create,
    /// Read the component instance; create it where it is not found.
    ReadOrCreate,
    /// No owners.
    NoOwner,
}

/// Adding creates the component instance, modifying reads it, other phases
/// give no owners.
pub fn owner_lookup(phase: Phase) -> (l: OwnerLookup)
    ensures
        l == match phase {
            Phase::Add => OwnerLookup::Create,
            Phase::Modify => OwnerLookup::ReadOrCreate,
            _ => OwnerLookup::NoOwner,
        },
{
    match phase {
        Phase::Add => OwnerLookup::Create,
        Phase::Modify => OwnerLookup::ReadOrCreate,
        _ => OwnerLookup::NoOwner,
    }
}

/// What reading the component instance failing means: where it was not
/// found, it is created; otherwise the error, naming the phase and instance.
pub fn owner_read_failed(phase: Phase, instance_name: &String, err: &String) -> (r: Result<(), String>)
    ensures
        crate::strings::spec_contains(err@, "NotFound"@) ==> r is Ok,
        !crate::strings::spec_contains(err@, "NotFound"@) ==> (r matches Err(m) && m@ == crate::lifecycle::phase_name(phase)
            + " on "@ + instance_name@ + ": "@ + err@),
{
    if crate::strings::str_contains(err.as_str(), "NotFound") {
        Ok(())
    } else {
        Err(phase.to_string().concat(" on ").concat(instance_name.as_str()).concat(": ").concat(err.as_str()))
    }
}

/// Deleting a component instance that is not found succeeds.
pub fn deletion_result(err: Option<String>) -> (r: Result<(), String>)
    ensures
        match err {
            None => r is Ok,
            Some(e) => if crate::strings::spec_contains(e@, "NotFound"@) {
                r is Ok
            } else {
                r matches Err(m) && m == e
            },
        },
{
    match err {
        None => Ok(()),
        Some(e) => if crate::strings::str_contains(e.as_str(), "NotFound") {
            Ok(())
        } else {
            Err(e)
        },
    }
}

/// A status patch that conflicts with another writer is retried on the
/// configuration read anew.
pub fn retry_on(reason: &Option<String>) -> (b: bool)
    ensures
        b == (reason matches Some(r) && r@ == "Conflict"@),
{
    match reason {
        Some(r) => str_eq(r.as_str(), "Conflict"),
        None => false,
    }
}

/// The reference to a configuration that events about it carry.
pub fn get_object_ref(
    api_version: Option<String>,
    kind: Option<String>,
    name: String,
    namespace: Option<String>,
    resource_version: Option<String>,
    uid: Option<String>,
) -> (r: ObjectReference)
    ensures
        r.api_version == api_version,
        r.kind == kind,
        r.name == Some(name),
        r.field_path is None,
        r.namespace == namespace,
        r.resource_version == resource_version,
        r.uid == uid,
{
    ObjectReference { api_version, kind, name: Some(name), field_path: None, namespace, resource_version, uid }
}

/// What a watch event of the configurations asks.
#[derive(Debug)]
pub enum WatchEvent {
    Added,
    Modified,
    Deleted,
    /// An error the API reported, with its reason.
    Error(String),
    Other,
}

/// What the operator does on a watch event.
#[derive(Debug, PartialEq)]
pub enum EventResponse {
    Add,
    Modify,
    Delete,
    Ignore,
    /// Fail with the reason of the API's error.
    Fail(String),
}

/// Added, modified and deleted configurations are added, modified and
/// deleted; an error that a configuration already exists is ignored, any
/// other error fails; other events are ignored.
pub fn event_response(event: WatchEvent) -> (r: EventResponse)
    ensures
        r == match event {
            WatchEvent::Added => EventResponse::Add,
            WatchEvent::Modified => EventResponse::Modify,
            WatchEvent::Deleted => EventResponse::Delete,
            WatchEvent::Error(reason) => if reason@ == "AlreadyExists"@ {
                EventResponse::Ignore
            } else {
                EventResponse::Fail(reason)
            },
            WatchEvent::Other => EventResponse::Ignore,
        },
{
    match event {
        WatchEvent::Added => EventResponse::Add,
        WatchEvent::Modified => EventResponse::Modify,
        WatchEvent::Deleted => EventResponse::Delete,
        WatchEvent::Error(reason) => if str_eq(reason.as_str(), "AlreadyExists") {
            EventResponse::Ignore
        } else {
            EventResponse::Fail(reason)
        },
        WatchEvent::Other => EventResponse::Ignore,
    }
}

/// The warning event that reports a failed addition or modification of a
/// configuration.
pub fn failure_info(added: bool, config_name: &String, err: String) -> (i: Info)
    ensures
        i.action@ == if added { "create"@ } else { "update"@ },
        i.message@ == (if added { "create config "@ } else { "update config "@ }) + config_name@ + " error"@,
        i.reason == err,
{
    if added {
        Info {
            action: "create".to_string(),
            message: "create config ".to_string().concat(config_name.as_str()).concat(" error"),
            reason: err,
        }
    } else {
        Info {
            action: "update".to_string(),
            message: "update config ".to_string().concat(config_name.as_str()).concat(" error"),
            reason: err,
        }
    }
}

/// The metadata of a workload of a configuration's component.
pub fn get_workload_meta(
    config_name: String,
    instance_name: String,
    component_name: String,
    annotations: Labels,
    namespace: String,
    definition: Component,
    params: ParamMap,
    owner_ref: Option<Vec<OwnerReference>>,
) -> (m: WorkloadMetadata)
    ensures
        m.name == config_name,
        m.instance_name == instance_name,
        m.component_name == component_name,
        m.annotations == Some(annotations),
        m.namespace == namespace,
        m.definition == definition,
        m.params == params,
        m.owner_ref == owner_ref,
{
    WorkloadMetadata {
        name: config_name,
        instance_name,
        component_name,
        annotations: Some(annotations),
        namespace,
        definition,
        params,
        owner_ref,
    }
}

/// The error of a configuration with scopes in a phase that scopes do not have.
pub fn unknown_scope_phase(phase: Phase, config_name: &String) -> (s: String)
    ensures
        s@ == "unknown phase for scopes "@ + crate::lifecycle::phase_name(phase) + " on "@ + config_name@,
{
    "unknown phase for scopes ".to_string().concat(phase.to_string().as_str()).concat(" on ").concat(
        config_name.as_str(),
    )
}

/// What the workload of a component does in a phase.
#[derive(Clone, Copy, Debug, PartialEq, Eq, Structural)]
pub enum WorkloadOp {
    Add,
    Modify,
}

/// The steps of a component in a phase: whether its workload is validated,
/// the phase its traits run before the workload, what the workload does, the
/// phase its traits run after, and the action the event reports.
#[derive(Debug, PartialEq)]
pub struct PhaseSteps {
    pub validate: bool,
    pub traits_before: Phase,
    pub workload: Option<WorkloadOp>,
    pub traits_after: Option<Phase>,
    pub event_action: Option<String>,
}

/// The steps of a component in each phase: an addition validates, runs the
/// traits' pre-add phase, adds the workload, runs the traits' add phase, and
/// reports `created`; a modification likewise modifies and reports
/// `updated`; a deletion only runs the traits' pre-delete phase, the owners
/// deleting the rest. Other phases are not run for a component.
pub fn phase_steps(phase: Phase) -> (r: Option<PhaseSteps>)
    ensures
        match phase {
            Phase::Add => r matches Some(s) && s.validate && s.traits_before == Phase::PreAdd && s.workload == Some(
                WorkloadOp::Add,
            ) && s.traits_after == Some(Phase::Add) && (s.event_action matches Some(a) && a@ == "created"@),
            Phase::Modify => r matches Some(s) && s.validate && s.traits_before == Phase::PreModify && s.workload
                == Some(WorkloadOp::Modify) && s.traits_after == Some(Phase::Modify) && (s.event_action matches Some(
                a,
            ) && a@ == "updated"@),
            Phase::Delete => r matches Some(s) && !s.validate && s.traits_before == Phase::PreDelete && s.workload
                is None && s.traits_after is None && s.event_action is None,
            _ => r is None,
        },
{
    match phase {
        Phase::Add => Some(
            PhaseSteps {
                validate: true,
                traits_before: Phase::PreAdd,
                workload: Some(WorkloadOp::Add),
                traits_after: Some(Phase::Add),
                event_action: Some("created".to_string()),
            },
        ),
        Phase::Modify => Some(
            PhaseSteps {
                validate: true,
                traits_before: Phase::PreModify,
                workload: Some(WorkloadOp::Modify),
                traits_after: Some(Phase::Modify),
                event_action: Some("updated".to_string()),
            },
        ),
        Phase::Delete => Some(
            PhaseSteps {
                validate: false,
                traits_before: Phase::PreDelete,
                workload: None,
                traits_after: None,
                event_action: None,
            },
        ),
        _ => None,
    }
}

/// The event that reports what happened to a component: the action, and
/// a message naming the component.
pub fn component_event_info(action: &String, component_name: &String) -> (i: Info)
    ensures
        i.action == *action,
        i.message@ == "component "@ + component_name@ + " "@ + action@,
        i.reason@ == Seq::<char>::empty(),
{
    Info {
        action: action.clone(),
        message: "component ".to_string().concat(component_name.as_str()).concat(" ").concat(action.as_str()),
        reason: String::new(),
    }
}

/// The status a configuration records after a phase: its status with the
/// phase's name, or a status of the phase alone where it had none.
pub fn next_status(status: Option<HydraStatus>, phase: Phase) -> (r: HydraStatus)
    ensures
        opt_view(r.phase) == Some(crate::lifecycle::phase_name(phase)),
        match status {
            Some(s) => r.components == s.components,
            None => r.components is None,
        },
{
    match status {
        Some(s) => HydraStatus { phase: Some(phase.to_string()), components: s.components },
        None => HydraStatus::new(Some(phase.to_string()), None),
    }
}
/// The scope instances a component names, none where it names none.
pub open spec fn named_scopes(c: ComponentConfigurationView) -> Seq<Seq<char>> {
    match c.application_scopes {
        Some(s) => s,
        None => Seq::empty(),
    }
}

/// The scope instances a component joins when it is applied, and leaves
/// when it is deleted: those it names, in order.
pub fn component_scopes(component: &ComponentConfiguration) -> (r: Vec<String>)
    ensures
        views(r@) == named_scopes(component@),
{
    match &component.application_scopes {
        Some(s) => vec_copy(s),
        None => {
            let r: Vec<String> = Vec::new();
            assert(views(r@) =~= Seq::<Seq<char>>::empty());
            r
        },
    }
}

/// The steps of deleting a component that the configuration no longer
/// names: its traits run their pre-delete phase, its component instance is
/// deleted (the owner references delete the rest), it leaves its scopes, and
/// an event reports it deleted.
#[derive(Debug)]
pub struct LeftoverSteps {
    pub traits_phase: Phase,
    pub delete_instance: String,
    pub leave_scopes: Vec<String>,
    pub event: Info,
}

/// The steps of deleting a component of a record left over.
pub fn leftover_steps(record: &ComponentRecord) -> (r: LeftoverSteps)
    ensures
        r.traits_phase == Phase::PreDelete,
        r.delete_instance@ == record.config.name@ + "-"@ + record.config.instance_name@,
        views(r.leave_scopes@) == named_scopes(record.config@),
        r.event.action@ == "deleted"@,
        r.event.message@ == "component "@ + record.config.name@ + " deleted"@,
        r.event.reason@ == Seq::<char>::empty(),
{
    let deleted = "deleted".to_string();
    let event = component_event_info(&deleted, &record.config.name);
    proof {
        reveal_strlit("deleted");
        reveal_strlit(" deleted");
        reveal_strlit(" ");
        assert(" "@ + "deleted"@ =~= " deleted"@);
        assert("component "@ + record.config.name@ + " "@ + "deleted"@ =~= "component "@ + record.config.name@ + " deleted"@);
    }
    LeftoverSteps {
        traits_phase: Phase::PreDelete,
        delete_instance: combine_name(record.config.name.clone(), record.config.instance_name.clone()),
        leave_scopes: component_scopes(&record.config),
        event,
    }
}

} // verus!
