//! Element-wise addition trace with broadcasting.
use crate::field::{m31_add, M31};
use crate::trace::{CircleEvaluation, Claim, TraceEval};
use vstd::arithmetic::power2::pow2;
use vstd::prelude::*;

verus! {

/// The value at row `i` of an operand broadcast by repetition.
pub open spec fn broadcast_at(v: Seq<M31>, i: int) -> int {
    v[i % v.len() as int]@
}

/// The number of output elements: the length of the longer operand.
pub open spec fn operand_size(lhs: Seq<M31>, rhs: Seq<M31>) -> nat {
    if lhs.len() >= rhs.len() {
        lhs.len()
    } else {
        rhs.len()
    }
}

/// Row `i` of the addition trace: the two operands and their sum on the
/// first `max(|lhs|, |rhs|)` rows, zero after.
pub open spec fn add_trace_cell(lhs: Seq<M31>, rhs: Seq<M31>, col: int, i: int) -> int {
    if i < operand_size(lhs, rhs) {
        if col == 0 {
            broadcast_at(lhs, i)
        } else if col == 1 {
            broadcast_at(rhs, i)
        } else {
            m31_add(broadcast_at(lhs, i), broadcast_at(rhs, i))
        }
    } else {
        0
    }
}

/// Generates the three columns `lhs, rhs, res` of an element-wise addition
/// over `2^log_size` rows, its claim, and the output values.
pub fn gen_add_trace(log_size: u32, lhs: &Vec<M31>, rhs: &Vec<M31>) -> (r: (TraceEval, Claim, Vec<M31>))
    requires
        (lhs@.len() > 0 && rhs@.len() > 0) || (lhs@.len() == 0 && rhs@.len() == 0),
        pow2(log_size as nat) <= usize::MAX,
    ensures
        r.0@.len() == 3,
        forall|c: int| 0 <= c < 3 ==> {
            &&& (#[trigger] r.0@[c]).log_size == log_size
            &&& r.0@[c].values@.len() == pow2(log_size as nat)
            &&& forall|i: int| 0 <= i < pow2(log_size as nat) ==> #[trigger] r.0@[c].values@[i]@ == add_trace_cell(lhs@, rhs@, c, i)
        },
        r.1.log_size == log_size,
        r.2@.len() == if operand_size(lhs@, rhs@) <= pow2(log_size as nat) {
            operand_size(lhs@, rhs@)
        } else {
            pow2(log_size as nat)
        },
        forall|i: int| 0 <= i < r.2@.len() ==> #[trigger] r.2@[i]@ == add_trace_cell(lhs@, rhs@, 2, i),
{
    let trace_size: usize = crate::trace::pow2_usize(log_size);
    let size: usize = if lhs.len() >= rhs.len() { lhs.len() } else { rhs.len() };
    let mut c0: Vec<M31> = Vec::new();
    let mut c1: Vec<M31> = Vec::new();
    let mut c2: Vec<M31> = Vec::new();
    let mut c_data: Vec<M31> = Vec::new();
    let mut i: usize = 0;
    while i < trace_size
        invariant
            i <= trace_size,
            trace_size == pow2(log_size as nat),
            (lhs@.len() > 0 && rhs@.len() > 0) || (lhs@.len() == 0 && rhs@.len() == 0),
            size == operand_size(lhs@, rhs@),
            c0@.len() == i,
            c1@.len() == i,
            c2@.len() == i,
            c_data@.len() == if i <= size { i as nat } else { size as nat },
            forall|j: int| 0 <= j < i ==> #[trigger] c0@[j]@ == add_trace_cell(lhs@, rhs@, 0, j),
            forall|j: int| 0 <= j < i ==> #[trigger] c1@[j]@ == add_trace_cell(lhs@, rhs@, 1, j),
            forall|j: int| 0 <= j < i ==> #[trigger] c2@[j]@ == add_trace_cell(lhs@, rhs@, 2, j),
            forall|j: int| 0 <= j < c_data@.len() ==> #[trigger] c_data@[j]@ == add_trace_cell(lhs@, rhs@, 2, j),
        decreases trace_size - i,
    {
        if i < size {
            let l = lhs[i % lhs.len()];
            let r = rhs[i % rhs.len()];
            let out = l.add(r);
            c0.push(l);
            c1.push(r);
            c2.push(out);
            c_data.push(out);
        } else {
            c0.push(M31::zero());
            c1.push(M31::zero());
            c2.push(M31::zero());
        }
        i = i + 1;
    }
    let mut trace: Vec<CircleEvaluation> = Vec::new();
    trace.push(CircleEvaluation { log_size, values: c0 });
    trace.push(CircleEvaluation { log_size, values: c1 });
    trace.push(CircleEvaluation { log_size, values: c2 });
    (trace, Claim::new(log_size), c_data)
}

/// The columns of the addition trace.
#[derive(Clone, Copy, Debug, PartialEq, Eq, Structural)]
pub enum AddColumn {
    /// The `lhs` operand.
    Lhs,
    /// The `rhs` operand.
    Rhs,
    /// The sum.
    Res,
}

impl AddColumn {
    /// Number of main and interaction columns of the addition trace.
    pub fn count() -> (r: (usize, usize))
        ensures
            r == (3usize, 0usize),
    {
        (3, 0)
    }

    /// Position of the column in the trace.
    pub fn index(&self) -> (r: usize)
        ensures
            r == match self {
                AddColumn::Lhs => 0usize,
                AddColumn::Rhs => 1usize,
                AddColumn::Res => 2usize,
            },
    {
        match self {
            AddColumn::Lhs => 0,
            AddColumn::Rhs => 1,
            AddColumn::Res => 2,
        }
    }
}

} // verus!
