//! Building blocks of a diatomic emission-spectrum synthesis: rotational
//! branch labels, exact Hönl–London line-strength factors, the row selections
//! of a Dunham coefficient matrix, and the enumeration of the lines that a
//! synthesis run sums.

pub mod branch_kind;
pub mod coupling_kind;
pub mod dunham_rows;
pub mod honl_london_factor;
pub mod spin_quantum_number;
pub mod synthesis;

pub use branch_kind::{DoubletBranchKind, SingletBranchKind, TripletBranchKind};
pub use coupling_kind::CouplingKind;
pub use dunham_rows::{rotational_rows, vibrational_rows};
pub use honl_london_factor::{
    check_supported, doublet_case_b, HonlLondonFactor, LineStrength, UnsupportedCombination,
};
pub use spin_quantum_number::{SpinMultiplicity, SpinQuantumNumberKind};
pub use synthesis::{plan_lines, BranchConfig, LineSpec, SynthesisError};
