use emission_spectrum::{
    DoubletBranchKind, SingletBranchKind, SpinMultiplicity, SpinQuantumNumberKind,
    TripletBranchKind,
};

#[test]
fn spin_quantum_number_test() {
    let kind = SpinQuantumNumberKind::Doublet(DoubletBranchKind::Q1);

    match kind {
        SpinQuantumNumberKind::Doublet(kind) => match kind {
            DoubletBranchKind::Q1 => {
                assert!(true);
            }
            _ => panic!("not the Q1 branch"),
        },
        _ => panic!("not a doublet branch"),
    }
}

#[test]
fn multiplicity_of_each_branch_kind() {
    assert_eq!(
        SpinQuantumNumberKind::Singlet(SingletBranchKind::R1).multiplicity(),
        SpinMultiplicity::Singlet
    );
    assert_eq!(
        SpinQuantumNumberKind::Doublet(DoubletBranchKind::P2).multiplicity(),
        SpinMultiplicity::Doublet
    );
    assert_eq!(
        SpinQuantumNumberKind::Triplet(TripletBranchKind::Q3).multiplicity(),
        SpinMultiplicity::Triplet
    );
}
