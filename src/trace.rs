//! Trace tables, padding to a power of two, and columnar evaluations.
use crate::field::M31;
use vstd::arithmetic::power2::{
    lemma2_to64, lemma_pow2_strictly_increases, lemma_pow2_unfold, pow2,
};
use vstd::prelude::*;

verus! {

/// Number of lanes in one packed row.
pub const N_LANES: usize = 16;

/// Base-2 logarithm of `N_LANES`.
pub const LOG_N_LANES: u32 = 4;

/// Failure while turning a table into trace columns.
#[derive(Clone, Copy, Debug, PartialEq, Eq, Structural)]
pub enum TraceError {
    /// The operator's trace table has no row.
    EmptyTrace,
    /// A row of a trace breaks a constraint of its component.
    ConstraintFailure,
}

/// `log` is the log-size a table of `n` rows is padded to: the smallest power
/// of two that holds every row and at least one lane width.
pub open spec fn is_padded_log_size(n: nat, log: nat) -> bool {
    &&& pow2(log) >= n
    &&& log >= LOG_N_LANES
    &&& (log == LOG_N_LANES || pow2((log - 1) as nat) < n)
}

/// The log-size that a table of `n` rows is padded to, and that size.
pub fn padded_log_size(n: usize) -> (r: (u32, usize))
    requires
        n <= usize::MAX / 2,
    ensures
        is_padded_log_size(n as nat, r.0 as nat),
        r.1 == pow2(r.0 as nat),
        r.0 < 64,
{
    let mut log: u32 = LOG_N_LANES;
    let mut size: usize = N_LANES;
    proof {
        lemma2_to64();
    }
    while size < n
        invariant
            LOG_N_LANES <= log < 64,
            size == pow2(log as nat),
            size >= N_LANES,
            log == LOG_N_LANES || pow2((log - 1) as nat) < n,
            n <= usize::MAX / 2,
        decreases 64 - log,
    {
        proof {
            lemma2_to64();
            lemma_pow2_unfold((log + 1) as nat);
            if log + 1 > 64 {
                lemma_pow2_strictly_increases(64, (log + 1) as nat);
            }
        }
        size = size * 2;
        log = log + 1;
    }
    (log, size)
}

/// `2^k` as a machine integer.
pub fn pow2_usize(k: u32) -> (r: usize)
    requires
        pow2(k as nat) <= usize::MAX,
    ensures
        r == pow2(k as nat),
{
    let mut r: usize = 1;
    let mut i: u32 = 0;
    proof {
        lemma2_to64();
    }
    while i < k
        invariant
            i <= k,
            r == pow2(i as nat),
            pow2(k as nat) <= usize::MAX,
        decreases k - i,
    {
        proof {
            lemma_pow2_unfold((i + 1) as nat);
            if i + 1 < k {
                lemma_pow2_strictly_increases((i + 1) as nat, k as nat);
            }
        }
        r = r * 2;
        i = i + 1;
    }
    r
}

/// A column of `2^log_size` values, read as the evaluations of a polynomial on
/// the canonical circle domain of that size.
#[derive(Clone, Debug)]
pub struct CircleEvaluation {
    pub log_size: u32,
    pub values: Vec<M31>,
}

/// The columns of one trace segment, in schema order.
pub type TraceEval = Vec<CircleEvaluation>;

/// The values of a column, as field-element views.
pub open spec fn column_view(values: Seq<M31>) -> Seq<int> {
    values.map_values(|x: M31| x@)
}

/// Gathers the evaluations of a trace segment before they are committed.
#[derive(Clone, Debug)]
pub struct TreeBuilder {
    pub evals: Vec<CircleEvaluation>,
}

impl TreeBuilder {
    pub fn new() -> (r: Self)
        ensures
            r.evals@.len() == 0,
    {
        TreeBuilder { evals: Vec::new() }
    }

    /// Appends the given evaluations after those already gathered.
    pub fn extend_evals(&mut self, evals: Vec<CircleEvaluation>)
        ensures
            final(self).evals@ == old(self).evals@ + evals@,
    {
        let mut evals = evals;
        self.evals.append(&mut evals);
    }
}

/// The committed dimensions of one component's trace.
#[derive(Clone, Copy, Debug, PartialEq, Eq, Structural)]
pub struct Claim {
    pub log_size: u32,
}

impl Claim {
    pub fn new(log_size: u32) -> (r: Self)
        ensures
            r.log_size == log_size,
    {
        Claim { log_size }
    }
}

/// The LogUp sum of one component's interaction column.
#[derive(Clone, Copy, Debug, PartialEq, Eq, Structural)]
pub struct InteractionClaim {
    pub claimed_sum: crate::field::QM31,
}

} // verus!
