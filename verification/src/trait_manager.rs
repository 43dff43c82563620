//! The trait manager: which traits a component instance has, made from the
//! trait bindings of its configuration.
use vstd::prelude::*;
use crate::schematic::component::Component;
use crate::schematic::configuration::ComponentConfiguration;
use crate::schematic::parameter::ParameterValue;
use crate::lifecycle::Phase;
use crate::schematic::traits::{
    Autoscaler, Empty, Ingress, ManualScaler, OAMTrait, TraitAction, TraitBinding, VolumeMounter, spec_trait_action,
};
use crate::schematic::traits::autoscaler::autoscaler_from_properties;
use crate::schematic::traits::ingress::ingress_from_properties;
use crate::schematic::traits::manual_scaler::manual_scaler_from_properties;
use crate::schematic::traits::util::OwnerRefs;
use crate::schematic::traits::volume_mounter::volume_mounter_from_properties;
use crate::strings::str_eq;
use crate::strmap::{DeepCopy, StrMap, opt_view};
use crate::workload_type::{copy_owner_refs, owners_view};

verus! {

// TraitManager maps a component to its traits, and handles trait lifecycle.
//
// Each component configuration is assigned a trait manager. That trait manager
// can load all of the associated traits, and then executed phases for each of
// the traits.
pub struct TraitManager {
    pub config_name: String,
    pub instance_name: String,
    pub component: ComponentConfiguration,
    pub parent_params: Vec<ParameterValue>,
    pub owner_ref: OwnerRefs,
    pub workload_type: String,
    // Component schematic loaded from cluster.
    pub component_schematic: Component,
    pub traits: Vec<OAMTrait>,
}

/// The error of a trait binding that names no known trait.
#[derive(Debug, PartialEq)]
pub struct UnknownTrait {
    pub name: String,
}

impl UnknownTrait {
    pub fn to_string(&self) -> (s: String)
        ensures
            s@ == "unknown trait "@ + self.name@,
    {
        "unknown trait ".to_string().concat(self.name.as_str())
    }
}

/// The names of the known traits.
pub open spec fn known_trait(name: Seq<char>) -> bool {
    name == "ingress"@ || name == "volume-mounter"@ || name == "auto-scaler"@ || name == "manual-scaler"@ || name
        == "empty"@
}

/// The trait a binding loads in a manager: the trait it names, made from the
/// binding's properties for the manager's instance.
pub open spec fn loaded_trait(t: OAMTrait, b: TraitBinding, m: TraitManager) -> bool {
    let props = opt_view(b.properties);
    let owners = owners_view(m.owner_ref);
    if b.name@ == "ingress"@ {
        t matches OAMTrait::Ingress(i) && ingress_from_properties(
            i,
            m.config_name@,
            m.instance_name@,
            m.component.name@,
            props,
            owners,
        )
    } else if b.name@ == "volume-mounter"@ {
        t matches OAMTrait::VolumeMounter(v) && volume_mounter_from_properties(
            *v,
            m.config_name@,
            m.instance_name@,
            m.component.name@,
            props,
            owners,
        ) && v.component@ == m.component_schematic@
    } else if b.name@ == "auto-scaler"@ {
        t matches OAMTrait::Autoscaler(a) && autoscaler_from_properties(
            a,
            m.config_name@,
            m.instance_name@,
            m.component.name@,
            props,
            owners,
        )
    } else if b.name@ == "manual-scaler"@ {
        t matches OAMTrait::ManualScaler(s) && manual_scaler_from_properties(
            s,
            m.config_name@,
            m.instance_name@,
            m.component.name@,
            props,
            owners,
            m.workload_type@,
        )
    } else if b.name@ == "empty"@ {
        t is Empty
    } else {
        false
    }
}

/// The trait bindings of a manager's component.
pub open spec fn bindings(m: TraitManager) -> Seq<TraitBinding> {
    match m.component.traits {
        Some(v) => v@,
        None => Seq::empty(),
    }
}

/// The statuses of the traits merged: a later trait's entry replaces an
/// earlier one of the same name.
pub open spec fn merged_status(s: Seq<Option<Map<Seq<char>, Seq<char>>>>) -> Map<Seq<char>, Seq<char>>
    decreases s.len(),
{
    if s.len() == 0 {
        Map::empty()
    } else {
        let m = merged_status(s.drop_last());
        match s.last() {
            Some(x) => m.union_prefer_right(x),
            None => m,
        }
    }
}

impl TraitManager {
    /// The trait a binding names, made from the binding's properties; an
    /// error for a binding that names no known trait.
    pub fn load_trait(&self, binding: &TraitBinding) -> (r: Result<OAMTrait, UnknownTrait>)
        ensures
            match r {
                Ok(t) => loaded_trait(t, *binding, *self),
                Err(e) => !known_trait(binding.name@) && e.name@ == binding.name@,
            },
            known_trait(binding.name@) ==> r is Ok,
    {
        let props = binding.properties.as_ref();
        let name = binding.name.as_str();
        if str_eq(name, "ingress") {
            let ing = Ingress::from_properties(
                self.config_name.clone(),
                self.instance_name.clone(),
                self.component.name.clone(),
                props,
                copy_owner_refs(&self.owner_ref),
            );
            Ok(OAMTrait::Ingress(ing))
        } else if str_eq(name, "volume-mounter") {
            let volmount = VolumeMounter::from_properties(
                self.config_name.clone(),
                self.instance_name.clone(),
                self.component.name.clone(),
                props,
                copy_owner_refs(&self.owner_ref),
                self.component_schematic.deep_copy(),
            );
            Ok(OAMTrait::VolumeMounter(Box::new(volmount)))
        } else if str_eq(name, "auto-scaler") {
            let auto_scaler = Autoscaler::from_properties(
                self.config_name.clone(),
                self.instance_name.clone(),
                self.component.name.clone(),
                props,
                copy_owner_refs(&self.owner_ref),
            );
            Ok(OAMTrait::Autoscaler(auto_scaler))
        } else if str_eq(name, "manual-scaler") {
            let scaler = ManualScaler::from_properties(
                self.config_name.clone(),
                self.instance_name.clone(),
                self.component.name.clone(),
                props,
                copy_owner_refs(&self.owner_ref),
                self.workload_type.clone(),
            );
            Ok(OAMTrait::ManualScaler(scaler))
        } else if str_eq(name, "empty") {
            Ok(OAMTrait::Empty(Empty {}))
        } else {
            Err(UnknownTrait { name: binding.name.clone() })
        }
    }

    /// Loads the traits of every binding, in order; on the first binding that
    /// names no known trait, an error, and the manager is left as it was.
    pub fn load_traits(&mut self) -> (r: Result<(), UnknownTrait>)
        ensures
            final(self).config_name == old(self).config_name,
            final(self).instance_name == old(self).instance_name,
            final(self).component == old(self).component,
            final(self).parent_params == old(self).parent_params,
            final(self).owner_ref == old(self).owner_ref,
            final(self).workload_type == old(self).workload_type,
            final(self).component_schematic == old(self).component_schematic,
            match r {
                Ok(_) => (forall|i: int| 0 <= i < bindings(*old(self)).len() ==> known_trait(#[trigger] bindings(*old(self))[i].name@))
                    && final(self).traits@.len() == bindings(*old(self)).len() && forall|i: int|
                    0 <= i < final(self).traits@.len() ==> loaded_trait(
                        #[trigger] final(self).traits@[i],
                        bindings(*old(self))[i],
                        *old(self),
                    ),
                Err(e) => *final(self) == *old(self) && exists|i: int|
                    0 <= i < bindings(*old(self)).len() && !known_trait(#[trigger] bindings(*old(self))[i].name@)
                        && e.name@ == bindings(*old(self))[i].name@ && forall|j: int|
                        0 <= j < i ==> known_trait(#[trigger] bindings(*old(self))[j].name@),
            },
    {
        let mut traits: Vec<OAMTrait> = Vec::new();
        let ghost bs = bindings(*self);
        match &self.component.traits {
            Some(ts) => {
                let n = ts.len();
                let mut i: usize = 0;
                while i < n
                    invariant
                        n == ts@.len(),
                        bs == ts@,
                        bs == bindings(*self),
                        i <= n,
                        traits@.len() == i,
                        forall|j: int| 0 <= j < i ==> known_trait(#[trigger] bs[j].name@),
                        forall|j: int| 0 <= j < i ==> loaded_trait(#[trigger] traits@[j], bs[j], *self),
                    decreases n - i,
                {
                    match self.load_trait(&ts[i]) {
                        Ok(t) => {
                            traits.push(t);
                        },
                        Err(e) => {
                            return Err(e);
                        },
                    }
                    i = i + 1;
                }
            },
            None => {},
        }
        self.traits = traits;
        Ok(())
    }
}

impl TraitManager {
    /// What each loaded trait does in a phase, in the order the traits were
    /// loaded. A trait's failure does not stop the others.
    pub fn actions(&self, phase: Phase) -> (r: Vec<TraitAction>)
        ensures
            r@.len() == self.traits@.len(),
            forall|i: int| 0 <= i < r@.len() ==> #[trigger] r@[i] == spec_trait_action(self.traits@[i], phase),
    {
        let mut out: Vec<TraitAction> = Vec::new();
        let n = self.traits.len();
        let mut i: usize = 0;
        while i < n
            invariant
                n == self.traits@.len(),
                i <= n,
                out@.len() == i,
                forall|j: int| 0 <= j < i ==> #[trigger] out@[j] == spec_trait_action(self.traits@[j], phase),
            decreases n - i,
        {
            out.push(self.traits[i].action(phase));
            i = i + 1;
        }
        out
    }
}

/// The statuses of all traits as one map; none where no trait reported any.
pub fn merge_status(statuses: &Vec<Option<StrMap<String>>>) -> (r: Option<StrMap<String>>)
    ensures
        ({
            let m = merged_status(statuses@.map_values(|o: Option<StrMap<String>>| opt_view(o)));
            if m == Map::<Seq<char>, Seq<char>>::empty() {
                r is None
            } else {
                r matches Some(x) && x@ == m
            }
        }),
{
    let ghost vs = statuses@.map_values(|o: Option<StrMap<String>>| opt_view(o));
    let mut all_status: StrMap<String> = StrMap::new();
    let n = statuses.len();
    let mut i: usize = 0;
    while i < n
        invariant
            n == statuses@.len(),
            vs == statuses@.map_values(|o: Option<StrMap<String>>| opt_view(o)),
            i <= n,
            all_status@ == merged_status(vs.subrange(0, i as int)),
        decreases n - i,
    {
        proof {
            let s = vs.subrange(0, i + 1);
            assert(s.drop_last() =~= vs.subrange(0, i as int));
            assert(s.last() == opt_view(statuses@[i as int]));
        }
        match &statuses[i] {
            Some(status) => {
                all_status.extend_from(status);
            },
            None => {},
        }
        i = i + 1;
    }
    proof {
        assert(vs.subrange(0, n as int) =~= vs);
    }
    if all_status.is_empty() {
        None
    } else {
        Some(all_status)
    }
}

} // verus!
