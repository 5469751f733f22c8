use vstd::prelude::*;

verus! {

/// Rotational branches of a singlet transition.
#[derive(Debug, Clone, Copy, PartialEq, Eq, Structural)]
pub enum SingletBranchKind {
    P1,
    Q1,
    R1,
}

/// Rotational branches of a doublet transition: the F1 and F2 spin components.
#[derive(Debug, Clone, Copy, PartialEq, Eq, Structural)]
pub enum DoubletBranchKind {
    P1,
    Q1,
    R1,
    P2,
    Q2,
    R2,
}

/// Rotational branches of a triplet transition: the F1, F2 and F3 spin components.
#[derive(Debug, Clone, Copy, PartialEq, Eq, Structural)]
pub enum TripletBranchKind {
    P1,
    Q1,
    R1,
    P2,
    Q2,
    R2,
    P3,
    Q3,
    R3,
}

} // verus!
