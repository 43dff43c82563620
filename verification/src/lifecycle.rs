//! The lifecycle phases of an operation on an application configuration.
use vstd::prelude::*;

verus! {

/// Phase describes the lifecycle phase for an operation.
///
/// The order of operations is this:
///
/// ADD
/// - Kubernetes Add
///   - Configuration
/// - PreAdd (traits only): Before components are added
///   - Component Configuration
///   - Traits
/// - Add: Resources added and initialized
///   - Components
///   - Traits
///
/// MODIFY
/// - Kubernetes Update
///   - Configuration
/// - PreModify (traits only): Before components are modified
///   - Traits
/// - Modify: Resources are modified
///   - Components
///   - Traits
///
/// DELETE
/// - Kubernetes Delete
///   - Configuration
/// - PreDelete:
///   - Traits
/// - Delete:
///   - Components
///   - Traits
///
/// Note that in deletion operations, Kubernetes will delete by owner reference before PreDelete. This means
/// that the components will likely be unavailable by the time PreDelete fires. It is only guaranteed to fire
/// before the component's Delete operation is fired.
#[derive(Clone, Copy, Debug, PartialEq, Eq, Structural)]
pub enum Phase {
    // PreAdd happens before resources are added
    PreAdd,
    Add,
    PreModify,
    Modify,
    PreDelete,
    Delete,
}

/// The name of a phase.
pub open spec fn phase_name(p: Phase) -> Seq<char> {
    match p {
        Phase::PreAdd => seq!['P', 'r', 'e', 'A', 'd', 'd'],
        Phase::Add => seq!['A', 'd', 'd'],
        Phase::PreModify => seq!['P', 'r', 'e', 'M', 'o', 'd', 'i', 'f', 'y'],
        Phase::Modify => seq!['M', 'o', 'd', 'i', 'f', 'y'],
        Phase::PreDelete => seq!['P', 'r', 'e', 'D', 'e', 'l', 'e', 't', 'e'],
        Phase::Delete => seq!['D', 'e', 'l', 'e', 't', 'e'],
    }
}

/// Different phases have different names.
pub proof fn lemma_phase_names_distinct(a: Phase, b: Phase)
    requires
        a != b,
    ensures
        phase_name(a) != phase_name(b),
{
    let na = phase_name(a);
    let nb = phase_name(b);
    if na.len() == nb.len() {
        if na.len() == 9 {
            assert(na[3] != nb[3]);
        } else if na.len() == 6 {
            assert(na[0] != nb[0]);
        }
    }
}

impl Phase {
    /// The name of the phase, as it is recorded in a status.
    pub fn to_string(&self) -> (s: String)
        ensures
            s@ == phase_name(*self),
    {
        let s = match self {
            Phase::PreAdd => "PreAdd",
            Phase::Add => "Add",
            Phase::PreModify => "PreModify",
            Phase::Modify => "Modify",
            Phase::PreDelete => "PreDelete",
            Phase::Delete => "Delete",
        };
        proof {
            reveal_strlit("PreAdd");
            reveal_strlit("Add");
            reveal_strlit("PreModify");
            reveal_strlit("Modify");
            reveal_strlit("PreDelete");
            reveal_strlit("Delete");
            assert(s@ =~= phase_name(*self));
        }
        s.to_string()
    }
}

} // verus!
