//! The empty trait: a trait that does nothing, to check the trait system.
use vstd::prelude::*;

verus! {

/// A trait that creates nothing and reports no status.
#[derive(Debug)]
pub struct Empty {}

impl Empty {
    /// The empty trait can be attached to any workload type.
    pub fn supports_workload_type(name: &str) -> (b: bool)
        ensures
            b,
    {
        true
    }
}

} // verus!
