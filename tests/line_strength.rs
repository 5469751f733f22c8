use emission_spectrum::{
    check_supported, doublet_case_b, CouplingKind, DoubletBranchKind, HonlLondonFactor,
    LineStrength, SingletBranchKind, SpinQuantumNumberKind, TripletBranchKind,
    UnsupportedCombination,
};

fn factor(branch: DoubletBranchKind, two_j: u16) -> LineStrength {
    HonlLondonFactor {
        two_j,
        lambda_upper: 2,
        lambda_lower: 1,
        coupling_kind: CouplingKind::B,
        branch_kind: SpinQuantumNumberKind::Doublet(branch),
    }
    .eval()
    .unwrap()
}

/// `a` equals `n / d` exactly.
fn is_ratio(a: LineStrength, n: i128, d: i128) -> bool {
    a.numerator * d == a.denominator * n && a.denominator != 0
}

#[test]
fn r1_first_levels_exact() {
    assert_eq!(
        factor(DoubletBranchKind::R1, 1),
        LineStrength { numerator: 49152, denominator: 12288 }
    );
    assert!(is_ratio(factor(DoubletBranchKind::R1, 1), 4, 1));
    assert!(is_ratio(factor(DoubletBranchKind::R1, 3), 18, 5));
    assert!(is_ratio(factor(DoubletBranchKind::R1, 5), 80, 21));
    assert!(is_ratio(factor(DoubletBranchKind::R1, 7), 25, 6));
}

#[test]
fn r1_golden_start_as_floating_point() {
    let got: Vec<f64> = [1u16, 3, 5, 7]
        .iter()
        .map(|&x| {
            let s = factor(DoubletBranchKind::R1, x);
            s.numerator as f64 / s.denominator as f64
        })
        .collect();
    assert_eq!(got, vec![4.0, 3.6, 3.8095238095238093, 4.166666666666667]);
}

#[test]
fn p2_singular_levels_are_zero_over_zero() {
    let s = factor(DoubletBranchKind::P2, 1);
    assert_eq!((s.numerator, s.denominator), (0, 0));
    let s = factor(DoubletBranchKind::P2, 5);
    assert_eq!((s.numerator, s.denominator), (0, 0));
    let s = factor(DoubletBranchKind::P2, 3);
    assert_eq!(s.numerator, 0);
    assert_ne!(s.denominator, 0);
}

#[test]
fn p1_at_lowest_level_is_positive_over_zero() {
    let s = factor(DoubletBranchKind::P1, 1);
    assert_eq!(s, LineStrength { numerator: 2048, denominator: 0 });
}

#[test]
fn q_branches_at_j_two_and_a_half() {
    assert_eq!(
        factor(DoubletBranchKind::Q1, 5),
        LineStrength { numerator: 122880, denominator: 806400 }
    );
    assert!(is_ratio(factor(DoubletBranchKind::Q1, 5), 16, 105));
    assert!(is_ratio(factor(DoubletBranchKind::Q2, 5), 32, 21));
}

#[test]
fn largest_level_does_not_overflow() {
    for b in [
        DoubletBranchKind::P1,
        DoubletBranchKind::Q1,
        DoubletBranchKind::R1,
        DoubletBranchKind::P2,
        DoubletBranchKind::Q2,
        DoubletBranchKind::R2,
    ] {
        let s = doublet_case_b(b, u16::MAX, 255, 254);
        assert!(s.denominator > 0);
        assert!(s.numerator > 0);
    }
}

#[test]
fn singlet_and_triplet_are_unsupported() {
    let mut f = HonlLondonFactor {
        two_j: 3,
        lambda_upper: 2,
        lambda_lower: 1,
        coupling_kind: CouplingKind::B,
        branch_kind: SpinQuantumNumberKind::Singlet(SingletBranchKind::P1),
    };
    assert_eq!(f.eval(), Err(UnsupportedCombination::Multiplicity));
    f.branch_kind = SpinQuantumNumberKind::Triplet(TripletBranchKind::R3);
    assert_eq!(f.eval(), Err(UnsupportedCombination::Multiplicity));
}

#[test]
fn case_a_is_unsupported() {
    let f = HonlLondonFactor {
        two_j: 3,
        lambda_upper: 2,
        lambda_lower: 1,
        coupling_kind: CouplingKind::A,
        branch_kind: SpinQuantumNumberKind::Doublet(DoubletBranchKind::Q1),
    };
    assert_eq!(f.eval(), Err(UnsupportedCombination::Coupling));
}

#[test]
fn lambda_difference_other_than_one_is_unsupported() {
    for (lu, ll) in [(1u8, 1u8), (1, 2), (3, 1), (0, 0)] {
        let f = HonlLondonFactor {
            two_j: 3,
            lambda_upper: lu,
            lambda_lower: ll,
            coupling_kind: CouplingKind::B,
            branch_kind: SpinQuantumNumberKind::Doublet(DoubletBranchKind::R2),
        };
        assert_eq!(f.eval(), Err(UnsupportedCombination::LambdaDifference));
    }
    assert_eq!(
        check_supported(
            CouplingKind::B,
            SpinQuantumNumberKind::Doublet(DoubletBranchKind::R2),
            1,
            0
        ),
        None
    );
}
