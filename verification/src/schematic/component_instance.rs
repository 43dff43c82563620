//! Component instances: the objects that own what an instance creates.
use vstd::prelude::*;
use crate::schematic::traits::TraitBinding;

verus! {

/// The spec of a component instance object: the traits attached to it.
#[derive(Debug)]
pub struct ComponentInstance {
    pub traits: Option<Vec<TraitBinding>>,
}

} // verus!
