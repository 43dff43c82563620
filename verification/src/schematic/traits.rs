//! OAM traits: operational add-ons attached to a component instance.
use vstd::prelude::*;
use crate::json::{JsonValue, Json};
use crate::lifecycle::Phase;
use crate::schematic::parameter::{ParameterValue, ParameterValueView};
use crate::strmap::{
    DeepCopy, Equiv, SpecEq, opt_view, opt_views, opt_vec_copy, opt_normal, opt_normals,
    opt_equivalent, opt_vec_equivalent,
};

pub mod util;
pub mod autoscaler;
pub mod manual_scaler;
pub mod ingress;
pub mod volume_mounter;
pub mod empty;

pub use crate::schematic::traits::autoscaler::Autoscaler;
pub use crate::schematic::traits::manual_scaler::ManualScaler;
pub use crate::schematic::traits::ingress::Ingress;
pub use crate::schematic::traits::volume_mounter::VolumeMounter;
pub use crate::schematic::traits::empty::Empty;

verus! {

pub const INGRESS_V1ALPHA1: &'static str = "ingress";
pub const AUTOSCALER_V1ALPHA1: &'static str = "auto-scaler";
pub const MANUAL_SCALER_V1ALPHA1: &'static str = "manual-scaler";
pub const VOLUME_MOUNTER_V1ALPHA1: &'static str = "volume-mounter";
pub const EMPTY: &'static str = "empty";

/// Trait describes OAM traits.
///
/// OAM traits are ops-oriented "add-ons" that can be attached to Components of the appropriate workloadType.
/// For example, an autoscaler trait can attach to a workloadType (such as Server) that can be
/// scaled up and down.
#[derive(Debug)]
pub struct Trait {}

/// A TraitBinding attaches a trait to a component.
///
/// Trait bindings appear in configuration stanzas for traits.
#[derive(Clone, Debug, PartialEq)]
pub struct TraitBinding {
    pub name: String,
    pub parameter_values: Option<Vec<ParameterValue>>,
    pub properties: Option<JsonValue>,
}

/// The mathematical form of a trait binding.
pub struct TraitBindingView {
    pub name: Seq<char>,
    pub parameter_values: Option<Seq<ParameterValueView>>,
    pub properties: Option<Json>,
}

impl View for TraitBinding {
    type V = TraitBindingView;

    open spec fn view(&self) -> TraitBindingView {
        TraitBindingView {
            name: self.name@,
            parameter_values: opt_views(self.parameter_values),
            properties: opt_view(self.properties),
        }
    }
}

impl DeepCopy for TraitBinding {
    fn deep_copy(&self) -> (r: Self) {
        TraitBinding {
            name: self.name.clone(),
            parameter_values: opt_vec_copy(&self.parameter_values),
            properties: match &self.properties {
                Some(p) => Some(p.deep_copy()),
                None => None,
            },
        }
    }
}

impl Equiv for TraitBinding {
    open spec fn normal(v: TraitBindingView) -> TraitBindingView {
        TraitBindingView {
            name: v.name,
            parameter_values: opt_normals::<ParameterValue>(v.parameter_values),
            properties: opt_normal::<JsonValue>(v.properties),
        }
    }

    fn equivalent(&self, other: &Self) -> (r: bool) {
        self.name.same(&other.name) && opt_vec_equivalent(&self.parameter_values, &other.parameter_values)
            && opt_equivalent(&self.properties, &other.properties)
    }
}

/// OAMTrait is an enumeration of the known traits.
///
/// This is a temporary solution. In the future, we really want to be able to proxy
/// trait fulfillment down into Kubernetes and let individual trait controllers
/// fulfill the contract.
#[derive(Debug)]
pub enum OAMTrait {
    Autoscaler(Autoscaler),
    ManualScaler(ManualScaler),
    Ingress(Ingress),
    VolumeMounter(Box<VolumeMounter>),
    Empty(Empty),
}


/// What a trait does with the objects it manages in a phase.
#[derive(Clone, Copy, Debug, PartialEq, Eq, Structural)]
pub enum TraitAction {
    /// Nothing.
    Nothing,
    /// Create its object.
    Create,
    /// Update its object in place.
    Update,
    /// Delete its object.
    Delete,
    /// Scale the workload it is attached to.
    Scale,
}

/// What each trait does in each phase. An autoscaler or an ingress creates
/// its object on addition, updates it on modification and deletes it on
/// deletion; a manual scaler scales its workload on addition and on
/// modification; a volume mounter creates its claim before the workload is
/// added, so that the pods find it, updates it on modification and deletes
/// it on deletion; the empty trait does nothing.
pub open spec fn spec_trait_action(t: OAMTrait, phase: Phase) -> TraitAction {
    match t {
        OAMTrait::Autoscaler(_) | OAMTrait::Ingress(_) => match phase {
            Phase::Add => TraitAction::Create,
            Phase::Modify => TraitAction::Update,
            Phase::Delete => TraitAction::Delete,
            _ => TraitAction::Nothing,
        },
        OAMTrait::ManualScaler(_) => match phase {
            Phase::Add | Phase::Modify => TraitAction::Scale,
            _ => TraitAction::Nothing,
        },
        OAMTrait::VolumeMounter(_) => match phase {
            Phase::PreAdd => TraitAction::Create,
            Phase::Modify => TraitAction::Update,
            Phase::Delete => TraitAction::Delete,
            _ => TraitAction::Nothing,
        },
        OAMTrait::Empty(_) => TraitAction::Nothing,
    }
}

impl OAMTrait {
    /// What the trait does in a phase.
    pub fn action(&self, phase: Phase) -> (a: TraitAction)
        ensures
            a == spec_trait_action(*self, phase),
            (self is Autoscaler || self is Ingress || self is VolumeMounter) && phase == Phase::Modify ==> a
                == TraitAction::Update,
            (self is Autoscaler || self is Ingress || self is VolumeMounter) && phase == Phase::Delete ==> a
                == TraitAction::Delete,
            (self is Autoscaler || self is Ingress) && phase == Phase::Add ==> a == TraitAction::Create,
            self is VolumeMounter && phase == Phase::PreAdd ==> a == TraitAction::Create,
            self is ManualScaler && (phase == Phase::Add || phase == Phase::Modify) ==> a == TraitAction::Scale,
    {
        match self {
            OAMTrait::Autoscaler(_) | OAMTrait::Ingress(_) => match phase {
                Phase::Add => TraitAction::Create,
                Phase::Modify => TraitAction::Update,
                Phase::Delete => TraitAction::Delete,
                _ => TraitAction::Nothing,
            },
            OAMTrait::ManualScaler(_) => match phase {
                Phase::Add | Phase::Modify => TraitAction::Scale,
                _ => TraitAction::Nothing,
            },
            OAMTrait::VolumeMounter(_) => match phase {
                Phase::PreAdd => TraitAction::Create,
                Phase::Modify => TraitAction::Update,
                Phase::Delete => TraitAction::Delete,
                _ => TraitAction::Nothing,
            },
            OAMTrait::Empty(_) => TraitAction::Nothing,
        }
    }
}

/// Every trait that owns an object follows its component: an autoscaler or
/// an ingress creates its object when the component is added, a volume
/// mounter creates its claim just before; each updates its object when the
/// component is modified and deletes it when the component is deleted. A
/// manual scaler scales on addition and modification, and owns nothing to
/// delete. The empty trait does nothing. No trait acts twice on one
/// addition: the object is created in exactly one of PreAdd and Add.
pub proof fn lemma_owned_objects_follow_component(t: OAMTrait)
    ensures
        t is Autoscaler || t is Ingress ==> spec_trait_action(t, Phase::Add) == TraitAction::Create
            && spec_trait_action(t, Phase::PreAdd) == TraitAction::Nothing,
        t is VolumeMounter ==> spec_trait_action(t, Phase::PreAdd) == TraitAction::Create && spec_trait_action(
            t,
            Phase::Add,
        ) == TraitAction::Nothing,
        t is Autoscaler || t is Ingress || t is VolumeMounter ==> spec_trait_action(t, Phase::Modify)
            == TraitAction::Update && spec_trait_action(t, Phase::Delete) == TraitAction::Delete,
        t is ManualScaler ==> spec_trait_action(t, Phase::Add) == TraitAction::Scale && spec_trait_action(
            t,
            Phase::Modify,
        ) == TraitAction::Scale && spec_trait_action(t, Phase::Delete) == TraitAction::Nothing,
        t is Empty ==> forall|p: Phase| spec_trait_action(t, p) == TraitAction::Nothing,
{
}

/// In the phases that run before the workload changes, only a volume
/// mounter acts, and only before an addition: a trait never deletes its
/// object ahead of a deletion.
pub proof fn lemma_pre_phases_only_prepare_claims(t: OAMTrait, phase: Phase)
    requires
        phase == Phase::PreAdd || phase == Phase::PreModify || phase == Phase::PreDelete,
    ensures
        spec_trait_action(t, phase) != TraitAction::Nothing ==> (t is VolumeMounter && phase == Phase::PreAdd
            && spec_trait_action(t, phase) == TraitAction::Create),
{
}

} // verus!
