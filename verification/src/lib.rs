use vstd::prelude::*;

pub mod strings;
pub mod strmap;
pub mod json;
pub mod schematic;
pub mod lifecycle;
pub mod instigator;
pub mod workload_type;
pub mod trait_manager;
pub mod healthscope;
pub mod kube_event;

verus! {

} // verus!
