use vstd::prelude::*;

use crate::branch_kind::{DoubletBranchKind, SingletBranchKind, TripletBranchKind};

verus! {

/// Spin multiplicity of a transition, without a branch.
#[derive(Debug, Clone, Copy, PartialEq, Eq, Structural)]
pub enum SpinMultiplicity {
    Singlet,
    Doublet,
    Triplet,
}

/// A rotational branch, tagged with the spin multiplicity it belongs to.
#[derive(Debug, Clone, Copy, PartialEq, Eq, Structural)]
pub enum SpinQuantumNumberKind {
    Singlet(SingletBranchKind),
    Doublet(DoubletBranchKind),
    Triplet(TripletBranchKind),
}

impl SpinQuantumNumberKind {
    pub open spec fn spec_multiplicity(self) -> SpinMultiplicity {
        match self {
            SpinQuantumNumberKind::Singlet(_) => SpinMultiplicity::Singlet,
            SpinQuantumNumberKind::Doublet(_) => SpinMultiplicity::Doublet,
            SpinQuantumNumberKind::Triplet(_) => SpinMultiplicity::Triplet,
        }
    }

    /// The multiplicity whose branch this is.
    pub fn multiplicity(&self) -> (r: SpinMultiplicity)
        ensures
            r == self.spec_multiplicity(),
    {
        match self {
            SpinQuantumNumberKind::Singlet(_) => SpinMultiplicity::Singlet,
            SpinQuantumNumberKind::Doublet(_) => SpinMultiplicity::Doublet,
            SpinQuantumNumberKind::Triplet(_) => SpinMultiplicity::Triplet,
        }
    }
}

} // verus!
