use vstd::prelude::*;

verus! {

/// Hund's coupling case of the electronic states.
#[derive(Debug, Clone, Copy, PartialEq, Eq, Structural)]
pub enum CouplingKind {
    A,
    B,
}

} // verus!
