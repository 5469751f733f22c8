//! The lines that a spectrum synthesis sums: every vibrational band, every
//! branch configuration and every rotational level of it, each with its exact
//! line strength, after the configurations have been checked against the run's
//! spin multiplicity and the available formulas.
use vstd::prelude::*;

use crate::coupling_kind::CouplingKind;
use crate::honl_london_factor::{
    check_supported, doublet_case_b, doublet_strength, unsupported_reason, LineStrength,
    UnsupportedCombination,
};
use crate::spin_quantum_number::{SpinMultiplicity, SpinQuantumNumberKind};

verus! {

/// One rotational branch of a run and the levels summed for it.
#[derive(Debug, Clone, PartialEq, Eq)]
pub struct BranchConfig {
    pub coupling_kind: CouplingKind,
    pub branch_kind: SpinQuantumNumberKind,
    /// `2J` of each level, in the order in which they are summed.
    pub two_j: Vec<u16>,
}

/// One line of a run: a band (by its index among the run's transitions), a
/// branch configuration (by index), a level of it, and the line's strength.
#[derive(Debug, Clone, Copy, PartialEq, Eq, Structural)]
pub struct LineSpec {
    pub transition: usize,
    pub config: usize,
    pub two_j: u16,
    pub strength: LineStrength,
}

/// Why a run cannot be carried out.
#[derive(Debug, Clone, Copy, PartialEq, Eq, Structural)]
pub enum SynthesisError {
    /// Only doublet runs have formulas.
    UnsupportedMultiplicity,
    /// A configuration's branch belongs to another multiplicity than the run's.
    BranchMismatch { config: usize },
    /// No formula covers a configuration.
    Unsupported { config: usize, reason: UnsupportedCombination },
}

/// What is wrong with configuration `c`, at index `i`, of a run over
/// `transitions` bands, if anything. A branch of another multiplicity is
/// always wrong; a missing formula only where the configuration is used, that
/// is where the run has a band and the configuration a level.
pub open spec fn config_fault(
    m: SpinMultiplicity,
    transitions: nat,
    c: BranchConfig,
    i: int,
    lu: int,
    ll: int,
) -> Option<SynthesisError> {
    if c.branch_kind.spec_multiplicity() != m {
        Some(SynthesisError::BranchMismatch { config: i as usize })
    } else if transitions == 0 || c.two_j@.len() == 0 {
        None
    } else {
        match unsupported_reason(c.coupling_kind, c.branch_kind, lu, ll) {
            Some(reason) => Some(SynthesisError::Unsupported { config: i as usize, reason }),
            None => None,
        }
    }
}

/// The fault of the first faulty configuration among the first `n`.
pub open spec fn first_fault(
    m: SpinMultiplicity,
    transitions: nat,
    configs: Seq<BranchConfig>,
    lu: int,
    ll: int,
    n: nat,
) -> Option<SynthesisError>
    decreases n,
{
    if n == 0 {
        None
    } else {
        match first_fault(m, transitions, configs, lu, ll, (n - 1) as nat) {
            Some(e) => Some(e),
            None => config_fault(m, transitions, configs[n - 1], n - 1, lu, ll),
        }
    }
}

/// The line of level `k` of configuration `c` in band `t`.
pub open spec fn level_line(
    t: int,
    c: int,
    cfg: BranchConfig,
    k: int,
    lu: int,
    ll: int,
) -> LineSpec {
    LineSpec {
        transition: t as usize,
        config: c as usize,
        two_j: cfg.two_j@[k],
        strength: doublet_strength(cfg.branch_kind->Doublet_0, cfg.two_j@[k] as int, lu, ll),
    }
}

/// The lines of the first `k` levels of configuration `c` in band `t`.
pub open spec fn config_lines(t: int, c: int, cfg: BranchConfig, lu: int, ll: int, k: nat) -> Seq<
    LineSpec,
>
    decreases k,
{
    if k == 0 {
        seq![]
    } else {
        config_lines(t, c, cfg, lu, ll, (k - 1) as nat).push(level_line(t, c, cfg, k - 1, lu, ll))
    }
}

/// The lines of the first `n` configurations in band `t`.
pub open spec fn band_lines(t: int, configs: Seq<BranchConfig>, lu: int, ll: int, n: nat) -> Seq<
    LineSpec,
>
    decreases n,
{
    if n == 0 {
        seq![]
    } else {
        band_lines(t, configs, lu, ll, (n - 1) as nat) + config_lines(
            t,
            n - 1,
            configs[n - 1],
            lu,
            ll,
            configs[n - 1].two_j@.len(),
        )
    }
}

/// The lines of the first `n` bands, band by band, configuration by
/// configuration, level by level.
pub open spec fn planned_lines(
    n: nat,
    configs: Seq<BranchConfig>,
    lu: int,
    ll: int,
) -> Seq<LineSpec>
    decreases n,
{
    if n == 0 {
        seq![]
    } else {
        planned_lines((n - 1) as nat, configs, lu, ll) + band_lines(
            n - 1,
            configs,
            lu,
            ll,
            configs.len(),
        )
    }
}

/// What `plan_lines` returns.
pub open spec fn spec_plan(
    m: SpinMultiplicity,
    lu: int,
    ll: int,
    transitions: nat,
    configs: Seq<BranchConfig>,
) -> Result<Seq<LineSpec>, SynthesisError> {
    if m != SpinMultiplicity::Doublet {
        Err(SynthesisError::UnsupportedMultiplicity)
    } else {
        match first_fault(m, transitions, configs, lu, ll, configs.len()) {
            Some(e) => Err(e),
            None => Ok(planned_lines(transitions, configs, lu, ll)),
        }
    }
}

proof fn lemma_no_fault(
    m: SpinMultiplicity,
    transitions: nat,
    configs: Seq<BranchConfig>,
    lu: int,
    ll: int,
    n: nat,
    i: int,
)
    requires
        first_fault(m, transitions, configs, lu, ll, n) is None,
        0 <= i < n,
    ensures
        config_fault(m, transitions, configs[i], i, lu, ll) is None,
    decreases n,
{
    if i < n - 1 {
        lemma_no_fault(m, transitions, configs, lu, ll, (n - 1) as nat, i);
    }
}

proof fn lemma_fault_stays(
    m: SpinMultiplicity,
    transitions: nat,
    configs: Seq<BranchConfig>,
    lu: int,
    ll: int,
    n: nat,
    k: nat,
)
    requires
        first_fault(m, transitions, configs, lu, ll, n) is Some,
        n <= k,
    ensures
        first_fault(m, transitions, configs, lu, ll, k) == first_fault(
            m,
            transitions,
            configs,
            lu,
            ll,
            n,
        ),
    decreases k,
{
    if n < k {
        lemma_fault_stays(m, transitions, configs, lu, ll, n, (k - 1) as nat);
    }
}

/// Checks the configurations of a run and lists its lines: for each of
/// `transitions` bands, for each configuration, for each of its levels, in that
/// order. A run fails on a multiplicity other than doublet, and else on the
/// first configuration whose branch belongs to another multiplicity or that no
/// formula covers although the run uses it (it has a level, and the run a
/// band). A run with no band, or whose configurations have no level, plans no
/// line.
pub fn plan_lines(
    multiplicity: SpinMultiplicity,
    lambda_upper: u8,
    lambda_lower: u8,
    transitions: usize,
    configs: &Vec<BranchConfig>,
) -> (r: Result<Vec<LineSpec>, SynthesisError>)
    ensures
        match r {
            Ok(lines) => spec_plan(
                multiplicity,
                lambda_upper as int,
                lambda_lower as int,
                transitions as nat,
                configs@,
            ) == Ok::<Seq<LineSpec>, SynthesisError>(lines@),
            Err(e) => spec_plan(
                multiplicity,
                lambda_upper as int,
                lambda_lower as int,
                transitions as nat,
                configs@,
            ) == Err::<Seq<LineSpec>, SynthesisError>(e),
        },
{
    let ghost lu = lambda_upper as int;
    let ghost ll = lambda_lower as int;
    if multiplicity != SpinMultiplicity::Doublet {
        return Err(SynthesisError::UnsupportedMultiplicity);
    }
    let mut i: usize = 0;
    while i < configs.len()
        invariant
            i <= configs@.len(),
            multiplicity == SpinMultiplicity::Doublet,
            lu == lambda_upper as int,
            ll == lambda_lower as int,
            first_fault(multiplicity, transitions as nat, configs@, lu, ll, i as nat) is None,
        decreases configs@.len() - i,
    {
        let c = &configs[i];
        if c.branch_kind.multiplicity() != multiplicity {
            proof {
                let n = configs@.len();
                let t = transitions as nat;
                lemma_fault_stays(multiplicity, t, configs@, lu, ll, (i + 1) as nat, n);
            }
            return Err(SynthesisError::BranchMismatch { config: i });
        }
        if transitions > 0 && c.two_j.len() > 0 {
            match check_supported(c.coupling_kind, c.branch_kind, lambda_upper, lambda_lower) {
                Some(reason) => {
                    proof {
                        let n = configs@.len();
                        let t = transitions as nat;
                        lemma_fault_stays(multiplicity, t, configs@, lu, ll, (i + 1) as nat, n);
                    }
                    return Err(SynthesisError::Unsupported { config: i, reason });
                },
                None => {},
            }
        }
        i = i + 1;
    }
    let mut lines: Vec<LineSpec> = Vec::new();
    let mut t: usize = 0;
    while t < transitions
        invariant
            t <= transitions,
            lu == lambda_upper as int,
            ll == lambda_lower as int,
            first_fault(multiplicity, transitions as nat, configs@, lu, ll, configs@.len()) is None,
            multiplicity == SpinMultiplicity::Doublet,
            lines@ == planned_lines(t as nat, configs@, lu, ll),
        decreases transitions - t,
    {
        let mut c: usize = 0;
        while c < configs.len()
            invariant
                t < transitions,
                lu == lambda_upper as int,
                ll == lambda_lower as int,
                c <= configs@.len(),
                first_fault(multiplicity, transitions as nat, configs@, lu, ll, configs@.len())
                    is None,
                multiplicity == SpinMultiplicity::Doublet,
                lines@ == planned_lines(t as nat, configs@, lu, ll) + band_lines(
                    t as int,
                    configs@,
                    lu,
                    ll,
                    c as nat,
                ),
            decreases configs@.len() - c,
        {
            let cfg = &configs[c];
            proof {
                let n = configs@.len();
                lemma_no_fault(multiplicity, transitions as nat, configs@, lu, ll, n, c as int);
            }
            let ghost before = lines@;
            match cfg.branch_kind {
                SpinQuantumNumberKind::Doublet(b) => {
                    let mut k: usize = 0;
                    while k < cfg.two_j.len()
                        invariant
                            k <= cfg.two_j@.len(),
                            lu == lambda_upper as int,
                            ll == lambda_lower as int,
                            c < configs@.len(),
                            cfg == configs@[c as int],
                            cfg.branch_kind == SpinQuantumNumberKind::Doublet(b),
                            lines@ == before + config_lines(
                                t as int,
                                c as int,
                                *cfg,
                                lu,
                                ll,
                                k as nat,
                            ),
                        decreases cfg.two_j@.len() - k,
                    {
                        let x = cfg.two_j[k];
                        let strength = doublet_case_b(b, x, lambda_upper, lambda_lower);
                        lines.push(LineSpec { transition: t, config: c, two_j: x, strength });
                        proof {
                            assert(lines@ =~= before + config_lines(
                                t as int,
                                c as int,
                                *cfg,
                                lu,
                                ll,
                                (k + 1) as nat,
                            ));
                        }
                        k = k + 1;
                    }
                },
                // every configuration was found to hold a doublet branch above
                _ => {},
            }
            proof {
                assert(lines@ =~= planned_lines(t as nat, configs@, lu, ll) + band_lines(
                    t as int,
                    configs@,
                    lu,
                    ll,
                    (c + 1) as nat,
                ));
            }
            c = c + 1;
        }
        proof {
            assert(lines@ =~= planned_lines((t + 1) as nat, configs@, lu, ll));
        }
        t = t + 1;
    }
    Ok(lines)
}

} // verus!
