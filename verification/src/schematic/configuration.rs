//! Application configurations: which components to instantiate, with which
//! values, traits and scopes.
use vstd::prelude::*;
use crate::schematic::parameter::{ParameterValue, ParameterValueView};
use crate::schematic::traits::{TraitBinding, TraitBindingView};
use crate::schematic::variable::Variable;
use crate::strmap::{DeepCopy, Equiv, SpecEq, opt_views, opt_vec_same, opt_vec_copy, opt_normals, opt_vec_equivalent};

verus! {

/// Configuration creates an instance of a specified component, and attaches configuration to it.
///
/// In OAM, an instance is a Component definition plus a Configuration. Practically speaking, a
/// Configuration says "Create a component of type X in scopes A, B, and C, set the following
/// parameters, and attach these traits"
#[derive(Clone, Debug, PartialEq)]
pub struct ComponentConfiguration {
    /// The name of the component to instantiate
    pub name: String,
    /// The name of the instance that is to be created
    pub instance_name: String,
    /// Values to substitute into the component
    pub parameter_values: Option<Vec<ParameterValue>>,
    /// Traits to attach to the component
    pub traits: Option<Vec<TraitBinding>>,
    /// Application Scopes which the component was involved
    pub application_scopes: Option<Vec<String>>,
}

/// The mathematical form of a component configuration.
pub struct ComponentConfigurationView {
    pub name: Seq<char>,
    pub instance_name: Seq<char>,
    pub parameter_values: Option<Seq<ParameterValueView>>,
    pub traits: Option<Seq<TraitBindingView>>,
    pub application_scopes: Option<Seq<Seq<char>>>,
}

impl View for ComponentConfiguration {
    type V = ComponentConfigurationView;

    open spec fn view(&self) -> ComponentConfigurationView {
        ComponentConfigurationView {
            name: self.name@,
            instance_name: self.instance_name@,
            parameter_values: opt_views(self.parameter_values),
            traits: opt_views(self.traits),
            application_scopes: opt_views(self.application_scopes),
        }
    }
}

impl DeepCopy for ComponentConfiguration {
    fn deep_copy(&self) -> (r: Self) {
        ComponentConfiguration {
            name: self.name.clone(),
            instance_name: self.instance_name.clone(),
            parameter_values: opt_vec_copy(&self.parameter_values),
            traits: opt_vec_copy(&self.traits),
            application_scopes: opt_vec_copy(&self.application_scopes),
        }
    }
}

impl Equiv for ComponentConfiguration {
    open spec fn normal(v: ComponentConfigurationView) -> ComponentConfigurationView {
        ComponentConfigurationView {
            name: v.name,
            instance_name: v.instance_name,
            parameter_values: opt_normals::<ParameterValue>(v.parameter_values),
            traits: opt_normals::<TraitBinding>(v.traits),
            application_scopes: v.application_scopes,
        }
    }

    fn equivalent(&self, other: &Self) -> (r: bool) {
        self.name.same(&other.name) && self.instance_name.same(&other.instance_name) && opt_vec_equivalent(
            &self.parameter_values,
            &other.parameter_values,
        ) && opt_vec_equivalent(&self.traits, &other.traits) && opt_vec_same(
            &self.application_scopes,
            &other.application_scopes,
        )
    }
}

/// ApplicationConfiguration is the top-level configuration object in OAM.
///
/// An ApplicationConfiguration can describe one or more components, a collection
/// of related parameters, and the associated traits and scopes.
#[derive(Debug)]
pub struct ApplicationConfiguration {
    pub variables: Option<Vec<Variable>>,
    pub scopes: Option<Vec<ScopeBinding>>,
    pub components: Option<Vec<ComponentConfiguration>>,
}

/// A ScopeBinding creates an application scope of a given type.
#[derive(Debug)]
pub struct ScopeBinding {
    pub name: String,
    pub scope_type: String,
    pub parameter_values: Option<Vec<ParameterValue>>,
}

} // verus!
