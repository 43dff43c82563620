//! Application scopes: groups of components with common behaviour.
use vstd::prelude::*;
use crate::instigator::ScopeAction;

pub mod health;
pub mod network;

pub use crate::schematic::scopes::health::Health;
pub use crate::schematic::scopes::network::Network;

verus! {

pub const HEALTH_SCOPE: &'static str = "core.hydra.io/v1alpha1.HealthScope";
pub const NETWORK_SCOPE: &'static str = "core.hydra.io/v1alpha1.NetworkScope";

/// Scopes describes Hydra application scopes.
///
/// Application scopes are used to group components together into logical applications
/// by providing different forms of application boundaries with common group behaviors.
/// For example, a health scope will aggregate health states for components and determine whether it's healthy or not.
#[derive(Debug)]
pub enum OAMScope {
    Health(Health),
    Network(Network),
}

impl OAMScope {
    /// Whether a component may be in this scope and another of its type.
    pub fn allow_overlap(&self) -> (b: bool)
        ensures
            b == match self {
                OAMScope::Health(h) => h.allow_component_overlap,
                OAMScope::Network(n) => n.allow_component_overlap,
            },
    {
        match self {
            OAMScope::Health(h) => h.allow_overlap(),
            OAMScope::Network(n) => n.allow_overlap(),
        }
    }

    /// The type of the scope.
    pub fn scope_type(&self) -> (s: String)
        ensures
            s@ == match self {
                OAMScope::Health(_) => "core.hydra.io/v1alpha1.HealthScope"@,
                OAMScope::Network(_) => "core.hydra.io/v1alpha1.NetworkScope"@,
            },
    {
        match self {
            OAMScope::Health(h) => h.scope_type(),
            OAMScope::Network(n) => n.scope_type(),
        }
    }
}

/// What a scope instance does on a lifecycle action of its configuration.
#[derive(Debug, PartialEq)]
pub enum ScopeStep {
    /// Create its object in the cluster.
    CreateObject,
    /// Nothing: the owner references delete its object.
    Nothing,
    /// The action is not implemented for the scope; the text says so.
    Unsupported(String),
}

/// The text of an action a scope does not implement: a health scope cannot
/// be modified, a network scope implements no action.
pub open spec fn unsupported_action(scope: OAMScope, action: ScopeAction) -> Option<Seq<char>> {
    match scope {
        OAMScope::Health(_) => match action {
            ScopeAction::Modify => Some("health scope modify not implemented"@),
            _ => None,
        },
        OAMScope::Network(_) => match action {
            ScopeAction::Create => Some("network scope create not implemented"@),
            ScopeAction::Modify => Some("network scope modify not implemented"@),
            ScopeAction::Delete => Some("network scope delete not implemented"@),
        },
    }
}

impl OAMScope {
    /// What the scope does on a lifecycle action.
    pub fn step(&self, action: ScopeAction) -> (r: ScopeStep)
        ensures
            match unsupported_action(*self, action) {
                Some(t) => r matches ScopeStep::Unsupported(m) && m@ == t,
                None => r == if action == ScopeAction::Create {
                    ScopeStep::CreateObject
                } else {
                    ScopeStep::Nothing
                },
            },
    {
        match self {
            OAMScope::Health(_) => match action {
                ScopeAction::Create => ScopeStep::CreateObject,
                ScopeAction::Modify => ScopeStep::Unsupported("health scope modify not implemented".to_string()),
                ScopeAction::Delete => ScopeStep::Nothing,
            },
            OAMScope::Network(_) => match action {
                ScopeAction::Create => ScopeStep::Unsupported("network scope create not implemented".to_string()),
                ScopeAction::Modify => ScopeStep::Unsupported("network scope modify not implemented".to_string()),
                ScopeAction::Delete => ScopeStep::Unsupported("network scope delete not implemented".to_string()),
            },
        }
    }
}

} // verus!
