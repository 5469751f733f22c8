//! Hönl–London rotational line-strength factors.
//!
//! The rotational quantum number is carried doubled (`x = 2J`), so that the
//! half-integer levels of a doublet are integers. Every formula is then a ratio
//! of two integer polynomials in `x`, `Λ'` and `Λ''`, and is returned exactly,
//! as a numerator and a denominator. A zero denominator marks a level at which
//! the closed form is singular; the ratio is handed out unchanged, so that a
//! floating-point caller obtains the infinity or NaN of the division.
use vstd::prelude::*;

use crate::branch_kind::DoubletBranchKind;
use crate::coupling_kind::CouplingKind;
use crate::spin_quantum_number::{SpinMultiplicity, SpinQuantumNumberKind};

verus! {

/// Largest magnitude of a linear factor of the formulas: `x + 2Λ + 5` and its
/// kin stay below this for `x < 2^16` and `Λ < 2^8`.
pub const LINEAR_BOUND: i128 = 0x20000;

/// Why no formula is available for a requested factor.
#[derive(Debug, Clone, Copy, PartialEq, Eq, Structural)]
pub enum UnsupportedCombination {
    /// Only doublet transitions have formulas.
    Multiplicity,
    /// Only Hund's case (b) has formulas.
    Coupling,
    /// Only `Λ' − Λ'' = 1` has formulas.
    LambdaDifference,
}

/// An exact line strength: `numerator / denominator`. A zero denominator
/// stands for the singular levels of a formula.
#[derive(Debug, Clone, Copy, PartialEq, Eq, Structural)]
pub struct LineStrength {
    pub numerator: i128,
    pub denominator: i128,
}

/// The inputs of one Hönl–London factor.
#[derive(Debug, Clone, Copy, PartialEq, Eq, Structural)]
pub struct HonlLondonFactor {
    /// `2J`: twice the rotational quantum number.
    pub two_j: u16,
    /// `Λ'`: electronic angular momentum of the upper state.
    pub lambda_upper: u8,
    /// `Λ''`: electronic angular momentum of the lower state.
    pub lambda_lower: u8,
    pub coupling_kind: CouplingKind,
    pub branch_kind: SpinQuantumNumberKind,
}

/// `2(J − Λ + ½)` with `x = 2J`.
pub open spec fn up(x: int, l: int) -> int {
    x - 2 * l + 1
}

/// `2(J + Λ + ½)` with `x = 2J`.
pub open spec fn um(x: int, l: int) -> int {
    x + 2 * l + 1
}

/// `4(J + ½)(J − Λ + ½)` with `x = 2J`.
pub open spec fn cp(x: int, l: int) -> int {
    (x + 1) * up(x, l)
}

/// `4(J + ½)(J + Λ + ½)` with `x = 2J`.
pub open spec fn cm(x: int, l: int) -> int {
    (x + 1) * um(x, l)
}

/// `4(J − Λ'' + ½)(J + Λ'' + ½)`, the term shared by every amplitude.
pub open spec fn cross(x: int, ll: int) -> int {
    up(x, ll) * um(x, ll)
}

/// The factor in front of the squared amplitude, scaled by a power of two.
pub open spec fn prefactor(b: DoubletBranchKind, x: int, ll: int) -> int {
    match b {
        DoubletBranchKind::P1 | DoubletBranchKind::P2 => (x - 2 * ll - 3) * (x - 2 * ll - 1),
        DoubletBranchKind::Q1 | DoubletBranchKind::Q2 => (x + 1) * (x - 2 * ll - 1) * (x + 2 * ll
            + 3),
        DoubletBranchKind::R1 | DoubletBranchKind::R2 => (x + 2 * ll + 3) * (x + 2 * ll + 5),
    }
}

/// The amplitude whose square enters the numerator.
pub open spec fn amplitude(b: DoubletBranchKind, x: int, lu: int, ll: int) -> int {
    match b {
        DoubletBranchKind::P1 => um(x - 2, lu) * um(x, ll) + cross(x, ll),
        DoubletBranchKind::R1 => um(x + 2, lu) * um(x, ll) + cross(x, ll),
        DoubletBranchKind::Q1 | DoubletBranchKind::P2 | DoubletBranchKind::Q2 => up(x - 2, lu) * up(
            x,
            ll,
        ) + cross(x, ll),
        DoubletBranchKind::R2 => up(x + 2, lu) * up(x, ll) + cross(x, ll),
    }
}

/// The factor of the denominator that depends on `J` alone.
pub open spec fn rotational_scale(b: DoubletBranchKind, x: int) -> int {
    match b {
        DoubletBranchKind::P1 | DoubletBranchKind::P2 => 16 * x,
        DoubletBranchKind::Q1 | DoubletBranchKind::Q2 => 8 * (x * (x + 2)),
        DoubletBranchKind::R1 | DoubletBranchKind::R2 => 16 * (x + 2),
    }
}

/// The upper-state normalisation of the denominator.
pub open spec fn upper_norm(b: DoubletBranchKind, x: int, lu: int) -> int {
    match b {
        DoubletBranchKind::P1 => cm(x - 2, lu),
        DoubletBranchKind::Q1 => cm(x, lu),
        DoubletBranchKind::R1 => cm(x + 2, lu),
        DoubletBranchKind::P2 => cp(x - 2, lu),
        DoubletBranchKind::Q2 => cp(x, lu),
        DoubletBranchKind::R2 => cp(x + 2, lu),
    }
}

/// The lower-state normalisation of the denominator.
pub open spec fn lower_norm(b: DoubletBranchKind, x: int, ll: int) -> int {
    match b {
        DoubletBranchKind::P1 | DoubletBranchKind::Q1 | DoubletBranchKind::R1 => cm(x, ll),
        DoubletBranchKind::P2 | DoubletBranchKind::Q2 | DoubletBranchKind::R2 => cp(x, ll),
    }
}

/// Numerator of the doublet, case (b), `ΔΛ = 1` factor at `x = 2J`.
pub open spec fn strength_numerator(b: DoubletBranchKind, x: int, lu: int, ll: int) -> int {
    prefactor(b, x, ll) * (amplitude(b, x, lu, ll) * amplitude(b, x, lu, ll))
}

/// Denominator of the doublet, case (b), `ΔΛ = 1` factor at `x = 2J`.
pub open spec fn strength_denominator(b: DoubletBranchKind, x: int, lu: int, ll: int) -> int {
    rotational_scale(b, x) * (upper_norm(b, x, lu) * lower_norm(b, x, ll))
}

/// Whether a formula exists, and if not, the first reason why not.
pub open spec fn unsupported_reason(
    coupling: CouplingKind,
    branch: SpinQuantumNumberKind,
    lu: int,
    ll: int,
) -> Option<UnsupportedCombination> {
    if branch.spec_multiplicity() != SpinMultiplicity::Doublet {
        Some(UnsupportedCombination::Multiplicity)
    } else if coupling != CouplingKind::B {
        Some(UnsupportedCombination::Coupling)
    } else if lu - ll != 1 {
        Some(UnsupportedCombination::LambdaDifference)
    } else {
        None
    }
}

/// The exact factor of a supported doublet branch.
pub open spec fn doublet_strength(b: DoubletBranchKind, x: int, lu: int, ll: int) -> LineStrength {
    LineStrength {
        numerator: strength_numerator(b, x, lu, ll) as i128,
        denominator: strength_denominator(b, x, lu, ll) as i128,
    }
}

/// What `eval` returns for the given inputs.
pub open spec fn spec_factor(f: HonlLondonFactor) -> Result<LineStrength, UnsupportedCombination> {
    let lu = f.lambda_upper as int;
    let ll = f.lambda_lower as int;
    match unsupported_reason(f.coupling_kind, f.branch_kind, lu, ll) {
        Some(u) => Err(u),
        None => Ok(doublet_strength(f.branch_kind->Doublet_0, f.two_j as int, lu, ll)),
    }
}

proof fn lemma_mul_bound(a: int, b: int, ba: int, bb: int)
    requires
        0 <= ba,
        0 <= bb,
        -ba <= a <= ba,
        -bb <= b <= bb,
    ensures
        -(ba * bb) <= a * b <= ba * bb,
{
    assert(-(ba * bb) <= a * b <= ba * bb) by (nonlinear_arith)
        requires
            0 <= ba,
            0 <= bb,
            -ba <= a <= ba,
            -bb <= b <= bb,
    ;
}

/// `x` holds a doubled rotational quantum number shifted by at most one level.
pub open spec fn shifted_level(x: i128) -> bool {
    -2 <= x <= 65537
}

fn up_exec(x: i128, l: i128) -> (r: i128)
    requires
        shifted_level(x),
        0 <= l <= 255,
    ensures
        r == up(x as int, l as int),
        -LINEAR_BOUND <= r <= LINEAR_BOUND,
{
    x - 2 * l + 1
}

fn um_exec(x: i128, l: i128) -> (r: i128)
    requires
        shifted_level(x),
        0 <= l <= 255,
    ensures
        r == um(x as int, l as int),
        -LINEAR_BOUND <= r <= LINEAR_BOUND,
{
    x + 2 * l + 1
}

fn cp_exec(x: i128, l: i128) -> (r: i128)
    requires
        shifted_level(x),
        0 <= l <= 255,
    ensures
        r == cp(x as int, l as int),
        -LINEAR_BOUND * LINEAR_BOUND <= r <= LINEAR_BOUND * LINEAR_BOUND,
{
    let u = up_exec(x, l);
    proof {
        lemma_mul_bound(x + 1, u as int, LINEAR_BOUND as int, LINEAR_BOUND as int);
    }
    (x + 1) * u
}

fn cm_exec(x: i128, l: i128) -> (r: i128)
    requires
        shifted_level(x),
        0 <= l <= 255,
    ensures
        r == cm(x as int, l as int),
        -LINEAR_BOUND * LINEAR_BOUND <= r <= LINEAR_BOUND * LINEAR_BOUND,
{
    let u = um_exec(x, l);
    proof {
        lemma_mul_bound(x + 1, u as int, LINEAR_BOUND as int, LINEAR_BOUND as int);
    }
    (x + 1) * u
}

fn prefactor_exec(b: DoubletBranchKind, x: i128, ll: i128) -> (r: i128)
    requires
        0 <= x <= 65535,
        0 <= ll <= 255,
    ensures
        r == prefactor(b, x as int, ll as int),
        -LINEAR_BOUND * LINEAR_BOUND * LINEAR_BOUND <= r <= LINEAR_BOUND * LINEAR_BOUND
            * LINEAR_BOUND,
{
    let ghost bb: int = LINEAR_BOUND as int;
    match b {
        DoubletBranchKind::P1 | DoubletBranchKind::P2 => {
            proof {
                lemma_mul_bound(x - 2 * ll - 3, x - 2 * ll - 1, bb, bb);
                lemma_mul_bound(1, (x - 2 * ll - 3) * (x - 2 * ll - 1), bb, bb * bb);
            }
            (x - 2 * ll - 3) * (x - 2 * ll - 1)
        },
        DoubletBranchKind::Q1 | DoubletBranchKind::Q2 => {
            proof {
                lemma_mul_bound(x + 1, x - 2 * ll - 1, bb, bb);
                lemma_mul_bound((x + 1) * (x - 2 * ll - 1), x + 2 * ll + 3, bb * bb, bb);
            }
            (x + 1) * (x - 2 * ll - 1) * (x + 2 * ll + 3)
        },
        DoubletBranchKind::R1 | DoubletBranchKind::R2 => {
            proof {
                lemma_mul_bound(x + 2 * ll + 3, x + 2 * ll + 5, bb, bb);
                lemma_mul_bound(1, (x + 2 * ll + 3) * (x + 2 * ll + 5), bb, bb * bb);
            }
            (x + 2 * ll + 3) * (x + 2 * ll + 5)
        },
    }
}

fn amplitude_exec(b: DoubletBranchKind, x: i128, lu: i128, ll: i128) -> (r: i128)
    requires
        0 <= x <= 65535,
        0 <= lu <= 255,
        0 <= ll <= 255,
    ensures
        r == amplitude(b, x as int, lu as int, ll as int),
        -2 * (LINEAR_BOUND * LINEAR_BOUND) <= r <= 2 * (LINEAR_BOUND * LINEAR_BOUND),
{
    let ghost bb: int = LINEAR_BOUND as int;
    let lower_up = up_exec(x, ll);
    let lower_um = um_exec(x, ll);
    proof {
        lemma_mul_bound(lower_up as int, lower_um as int, bb, bb);
    }
    let shared = lower_up * lower_um;
    let (upper, lower) = match b {
        DoubletBranchKind::P1 => (um_exec(x - 2, lu), lower_um),
        DoubletBranchKind::R1 => (um_exec(x + 2, lu), lower_um),
        DoubletBranchKind::Q1 | DoubletBranchKind::P2 | DoubletBranchKind::Q2 => (
            up_exec(x - 2, lu),
            lower_up,
        ),
        DoubletBranchKind::R2 => (up_exec(x + 2, lu), lower_up),
    };
    proof {
        lemma_mul_bound(upper as int, lower as int, bb, bb);
    }
    upper * lower + shared
}

fn rotational_scale_exec(b: DoubletBranchKind, x: i128) -> (r: i128)
    requires
        0 <= x <= 65535,
    ensures
        r == rotational_scale(b, x as int),
        0 <= r <= 8 * (LINEAR_BOUND * LINEAR_BOUND),
{
    match b {
        DoubletBranchKind::P1 | DoubletBranchKind::P2 => 16 * x,
        DoubletBranchKind::Q1 | DoubletBranchKind::Q2 => {
            proof {
                lemma_mul_bound(x as int, x + 2, LINEAR_BOUND as int, LINEAR_BOUND as int);
                assert(0 <= x * (x + 2)) by (nonlinear_arith)
                    requires
                        0 <= x,
                ;
            }
            8 * (x * (x + 2))
        },
        DoubletBranchKind::R1 | DoubletBranchKind::R2 => 16 * (x + 2),
    }
}

fn upper_norm_exec(b: DoubletBranchKind, x: i128, lu: i128) -> (r: i128)
    requires
        0 <= x <= 65535,
        0 <= lu <= 255,
    ensures
        r == upper_norm(b, x as int, lu as int),
        -LINEAR_BOUND * LINEAR_BOUND <= r <= LINEAR_BOUND * LINEAR_BOUND,
{
    match b {
        DoubletBranchKind::P1 => cm_exec(x - 2, lu),
        DoubletBranchKind::Q1 => cm_exec(x, lu),
        DoubletBranchKind::R1 => cm_exec(x + 2, lu),
        DoubletBranchKind::P2 => cp_exec(x - 2, lu),
        DoubletBranchKind::Q2 => cp_exec(x, lu),
        DoubletBranchKind::R2 => cp_exec(x + 2, lu),
    }
}

fn lower_norm_exec(b: DoubletBranchKind, x: i128, ll: i128) -> (r: i128)
    requires
        0 <= x <= 65535,
        0 <= ll <= 255,
    ensures
        r == lower_norm(b, x as int, ll as int),
        -LINEAR_BOUND * LINEAR_BOUND <= r <= LINEAR_BOUND * LINEAR_BOUND,
{
    match b {
        DoubletBranchKind::P1 | DoubletBranchKind::Q1 | DoubletBranchKind::R1 => cm_exec(x, ll),
        DoubletBranchKind::P2 | DoubletBranchKind::Q2 | DoubletBranchKind::R2 => cp_exec(x, ll),
    }
}

/// The exact doublet, Hund's case (b), `ΔΛ = 1` factor of branch `b` at
/// `J = two_j / 2`. The formula is applied whatever `Λ' − Λ''` is; `eval`
/// decides whether it is the one that applies.
pub fn doublet_case_b(b: DoubletBranchKind, two_j: u16, lambda_upper: u8, lambda_lower: u8) -> (r:
    LineStrength)
    ensures
        r.numerator == strength_numerator(
            b,
            two_j as int,
            lambda_upper as int,
            lambda_lower as int,
        ),
        r.denominator == strength_denominator(
            b,
            two_j as int,
            lambda_upper as int,
            lambda_lower as int,
        ),
        r == doublet_strength(b, two_j as int, lambda_upper as int, lambda_lower as int),
{
    let ghost bb: int = LINEAR_BOUND as int;
    let x = two_j as i128;
    let lu = lambda_upper as i128;
    let ll = lambda_lower as i128;
    let pre = prefactor_exec(b, x, ll);
    let amp = amplitude_exec(b, x, lu, ll);
    proof {
        lemma_mul_bound(amp as int, amp as int, 2 * (bb * bb), 2 * (bb * bb));
        lemma_mul_bound(
            pre as int,
            amp * amp,
            bb * bb * bb,
            2 * (bb * bb) * (2 * (bb * bb)),
        );
    }
    let numerator = pre * (amp * amp);
    let scale = rotational_scale_exec(b, x);
    let upper = upper_norm_exec(b, x, lu);
    let lower = lower_norm_exec(b, x, ll);
    proof {
        lemma_mul_bound(upper as int, lower as int, bb * bb, bb * bb);
        lemma_mul_bound(scale as int, upper * lower, 8 * (bb * bb), bb * bb * (bb * bb));
    }
    let denominator = scale * (upper * lower);
    LineStrength { numerator, denominator }
}

/// Whether a formula covers a branch under a coupling case and a pair of
/// `Λ` values; `None` when it does, else the first reason why not.
pub fn check_supported(
    coupling_kind: CouplingKind,
    branch_kind: SpinQuantumNumberKind,
    lambda_upper: u8,
    lambda_lower: u8,
) -> (r: Option<UnsupportedCombination>)
    ensures
        r == unsupported_reason(
            coupling_kind,
            branch_kind,
            lambda_upper as int,
            lambda_lower as int,
        ),
{
    if branch_kind.multiplicity() != SpinMultiplicity::Doublet {
        return Some(UnsupportedCombination::Multiplicity);
    }
    if coupling_kind != CouplingKind::B {
        return Some(UnsupportedCombination::Coupling);
    }
    if lambda_upper as i16 - lambda_lower as i16 != 1 {
        return Some(UnsupportedCombination::LambdaDifference);
    }
    None
}

impl HonlLondonFactor {
    /// The factor, or why no formula covers these inputs. Only doublet branches
    /// under Hund's case (b) with `Λ' − Λ'' = 1` have one.
    pub fn eval(&self) -> (r: Result<LineStrength, UnsupportedCombination>)
        ensures
            r == spec_factor(*self),
            r is Ok ==> r->Ok_0.numerator == strength_numerator(
                self.branch_kind->Doublet_0,
                self.two_j as int,
                self.lambda_upper as int,
                self.lambda_lower as int,
            ),
            r is Ok ==> r->Ok_0.denominator == strength_denominator(
                self.branch_kind->Doublet_0,
                self.two_j as int,
                self.lambda_upper as int,
                self.lambda_lower as int,
            ),
    {
        let lu = self.lambda_upper;
        let ll = self.lambda_lower;
        match check_supported(self.coupling_kind, self.branch_kind, lu, ll) {
            Some(reason) => Err(reason),
            None => match self.branch_kind {
                SpinQuantumNumberKind::Doublet(b) => Ok(doublet_case_b(b, self.two_j, lu, ll)),
                // a supported branch is a doublet one
                _ => Err(UnsupportedCombination::Multiplicity),
            },
        }
    }
}

/// A factor has a formula exactly for a doublet branch under Hund's case (b)
/// with `Λ' − Λ'' = 1`; every other multiplicity, coupling case or difference
/// of `Λ` gives an unsupported outcome, never a number.
pub proof fn lemma_supported_exactly_doublet_case_b(f: HonlLondonFactor)
    ensures
        spec_factor(f) is Ok <==> (f.branch_kind is Doublet && f.coupling_kind == CouplingKind::B
            && f.lambda_upper - f.lambda_lower == 1),
{
}

} // verus!
