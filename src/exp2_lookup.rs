//! The exp2 lookup-table component: how often each table row is used, and the
//! LogUp column that pays for those uses.
use crate::field::{qm31_inv, qm31_mul, qm31_neg, qm31_of, qm31_sum, QM31Model, M31, QM31};
use crate::logup::{combine_spec, Exp2LookupElements};
use crate::table::{trace_evaluation, OpKind};
use crate::trace::{column_view, CircleEvaluation, Claim, InteractionClaim, TraceError, TreeBuilder};
use vstd::arithmetic::power2::pow2;
use vstd::prelude::*;

verus! {

/// One row of the exp2 lookup table: how many times the table row was used.
#[derive(Clone, Copy, Debug, PartialEq, Eq, Structural)]
pub struct Exp2LookupTraceTableRow {
    pub multiplicity: M31,
}

impl Exp2LookupTraceTableRow {
    /// The row that fills the table up to its padded size.
    pub fn padding() -> (r: Self)
        ensures
            r.multiplicity@ == 0,
    {
        Exp2LookupTraceTableRow { multiplicity: M31::zero() }
    }
}

/// The multiplicities of the exp2 lookup table.
#[derive(Clone, Debug)]
pub struct Exp2LookupTraceTable {
    pub table: Vec<Exp2LookupTraceTableRow>,
}

/// The multiplicities of `rows`, padded with zero to `size`.
pub open spec fn padded_multiplicities(rows: Seq<Exp2LookupTraceTableRow>, size: nat) -> Seq<int> {
    Seq::new(size, |i: int| if i < rows.len() { rows[i].multiplicity@ } else { 0 })
}

/// Generates the main trace of the exp2 lookup table.
pub struct Exp2LookupClaimGenerator {
    pub inputs: Exp2LookupTraceTable,
}

/// Generates the LogUp column of the exp2 lookup table.
pub struct Exp2LookupInteractionClaimGenerator {
    log_size: u32,
    multiplicities: Vec<M31>,
}

impl Exp2LookupInteractionClaimGenerator {
    pub closed spec fn log_size_spec(&self) -> nat {
        self.log_size as nat
    }

    /// The padded multiplicities captured from the main trace.
    pub closed spec fn multiplicities_spec(&self) -> Seq<int> {
        column_view(self.multiplicities@)
    }

    pub closed spec fn wf(&self) -> bool {
        self.multiplicities@.len() == pow2(self.log_size as nat)
    }
}

/// The LogUp term of one table row: `-multiplicity / combine(input, output)`.
pub open spec fn lookup_term(e: (QM31Model, QM31Model, QM31Model), m: int, x: int, y: int) -> QM31Model {
    qm31_mul(qm31_neg(qm31_of(m)), qm31_inv(combine_spec(e, x, y)))
}

/// The terms of the first `n` table rows.
pub open spec fn lookup_terms(
    e: (QM31Model, QM31Model, QM31Model),
    mults: Seq<int>,
    inputs: Seq<int>,
    outputs: Seq<int>,
    n: nat,
) -> Seq<QM31Model> {
    Seq::new(n, |i: int| lookup_term(e, mults[i], inputs[i], outputs[i]))
}

/// Fills the main-trace column and the LogUp data from the padded
/// multiplicities: both are the multiplicities themselves.
fn write_trace_simd(inputs: &Vec<M31>) -> (r: (Vec<M31>, Vec<M31>))
    ensures
        r.0@ == inputs@,
        r.1@ == inputs@,
{
    let mut column: Vec<M31> = Vec::new();
    let mut lookup_data: Vec<M31> = Vec::new();
    let mut i: usize = 0;
    while i < inputs.len()
        invariant
            i <= inputs@.len(),
            column@ == inputs@.subrange(0, i as int),
            lookup_data@ == inputs@.subrange(0, i as int),
        decreases inputs@.len() - i,
    {
        column.push(inputs[i]);
        lookup_data.push(inputs[i]);
        proof {
            assert(inputs@.subrange(0, i + 1) =~= inputs@.subrange(0, i as int).push(inputs@[i as int]));
        }
        i = i + 1;
    }
    proof {
        assert(inputs@.subrange(0, inputs@.len() as int) =~= inputs@);
    }
    (column, lookup_data)
}

impl Exp2LookupClaimGenerator {
    pub fn new(inputs: Exp2LookupTraceTable) -> (r: Self)
        ensures
            r.inputs == inputs,
    {
        Exp2LookupClaimGenerator { inputs }
    }

    /// Pads the multiplicities to the table's power-of-two size, appends them
    /// to `tree_builder` as one column, and returns the claim of the log-size
    /// with the data for the LogUp column; `EmptyTrace` when there is no row.
    pub fn write_trace(self, tree_builder: &mut TreeBuilder) -> (res: Result<
        (Claim, Exp2LookupInteractionClaimGenerator),
        TraceError,
    >)
        requires
            self.inputs.table@.len() <= usize::MAX / 2,
        ensures
            match res {
                Ok((claim, gen)) => {
                    &&& self.inputs.table@.len() > 0
                    &&& crate::trace::is_padded_log_size(self.inputs.table@.len(), claim.log_size as nat)
                    &&& gen.wf()
                    &&& gen.log_size_spec() == claim.log_size
                    &&& gen.multiplicities_spec() == padded_multiplicities(self.inputs.table@, pow2(claim.log_size as nat))
                    &&& final(tree_builder).evals@.len() == old(tree_builder).evals@.len() + 1
                    &&& final(tree_builder).evals@.subrange(0, old(tree_builder).evals@.len() as int) == old(tree_builder).evals@
                    &&& final(tree_builder).evals@.last().log_size == claim.log_size
                    &&& column_view(final(tree_builder).evals@.last().values@) == gen.multiplicities_spec()
                },
                Err(e) => self.inputs.table@.len() == 0 && e == TraceError::EmptyTrace
                    && final(tree_builder).evals@ == old(tree_builder).evals@,
            },
    {
        let rows = &self.inputs.table;
        let mut as_rows: Vec<Vec<M31>> = Vec::new();
        let mut i: usize = 0;
        while i < rows.len()
            invariant
                i <= rows@.len(),
                as_rows@.len() == i,
                forall|j: int| 0 <= j < i ==> (#[trigger] as_rows@[j])@ == seq![rows@[j].multiplicity],
            decreases rows@.len() - i,
        {
            as_rows.push(vec![rows[i].multiplicity]);
            i = i + 1;
        }
        proof {
            assert forall|j: int| 0 <= j < as_rows@.len() implies #[trigger] as_rows@[j]@.len() == 1 by {
                assert(as_rows@[j]@ == seq![rows@[j].multiplicity]);
            }
        }
        match trace_evaluation(OpKind::Exp2Lookup, &as_rows) {
            Ok((trace, claim)) => {
                let ghost size = pow2(claim.log_size as nat);
                let (column, multiplicities) = write_trace_simd(&trace[0].values);
                proof {
                    assert(trace@[0].values@.len() == size);
                    assert forall|r: int| 0 <= r < size implies #[trigger] column_view(multiplicities@)[r] == padded_multiplicities(rows@, size)[r] by {
                        assert(trace@[0].values@[r]@ == crate::table::cell(OpKind::Exp2Lookup, as_rows@, 0, r));
                        if r < rows@.len() {
                            assert(as_rows@[r]@ == seq![rows@[r].multiplicity]);
                        }
                    }
                    assert(column_view(multiplicities@) =~= padded_multiplicities(rows@, size));
                }
                let mut one: Vec<CircleEvaluation> = Vec::new();
                one.push(CircleEvaluation { log_size: claim.log_size, values: column });
                let ghost before = tree_builder.evals@;
                tree_builder.extend_evals(one);
                proof {
                    assert(tree_builder.evals@.subrange(0, before.len() as int) =~= before);
                }
                Ok((claim, Exp2LookupInteractionClaimGenerator { log_size: claim.log_size, multiplicities }))
            },
            Err(e) => Err(e),
        }
    }
}

/// Coordinate `j` of an extension-field element.
pub open spec fn coord(q: QM31Model, j: int) -> int {
    if j == 0 {
        q.0
    } else if j == 1 {
        q.1
    } else if j == 2 {
        q.2
    } else {
        q.3
    }
}

fn coords(q: QM31) -> (r: [M31; 4])
    ensures
        forall|j: int| 0 <= j < 4 ==> #[trigger] r@[j]@ == coord(q@, j),
{
    [q.a, q.b, q.c, q.d]
}

/// What writing the LogUp column of a table of `2^log` rows does: it appends
/// four coordinate columns after the existing ones; row `i` of the column
/// holds the sum of the terms of rows `0..=i`, and the claimed sum is the sum
/// of all terms.
pub open spec fn lookup_interaction_written(
    log: nat,
    mults: Seq<int>,
    e: (QM31Model, QM31Model, QM31Model),
    lut: Seq<Vec<M31>>,
    before: Seq<CircleEvaluation>,
    after: Seq<CircleEvaluation>,
    claimed_sum: QM31Model,
) -> bool {
    let ts = lookup_terms(e, mults, column_view(lut[0]@), column_view(lut[1]@), pow2(log));
    &&& claimed_sum == qm31_sum(ts)
    &&& after.len() == before.len() + 4
    &&& after.subrange(0, before.len() as int) == before
    &&& forall|j: int| 0 <= j < 4 ==> {
        let col = #[trigger] after[before.len() + j];
        &&& col.log_size == log
        &&& col.values@.len() == pow2(log)
        &&& forall|i: int| 0 <= i < pow2(log) ==> #[trigger] col.values@[i]@ == coord(qm31_sum(ts.subrange(0, i + 1)), j)
    }
}

impl Exp2LookupInteractionClaimGenerator {
    /// Writes the LogUp column of the table: the running sum, row by row, of
    /// the terms `-multiplicity / combine(input, output)` over the table's two
    /// columns, as one extension-field column (four coordinate columns). The
    /// claimed sum is the sum of all terms, the column's last value.
    pub fn write_interaction_trace(
        self,
        tree_builder: &mut TreeBuilder,
        elements: &Exp2LookupElements,
        lut: &Vec<Vec<M31>>,
    ) -> (r: InteractionClaim)
        requires
            self.wf(),
            lut@.len() >= 2,
            lut@[0]@.len() >= pow2(self.log_size_spec()),
            lut@[1]@.len() >= pow2(self.log_size_spec()),
        ensures
            lookup_interaction_written(
                self.log_size_spec(),
                self.multiplicities_spec(),
                elements.model(),
                lut@,
                old(tree_builder).evals@,
                final(tree_builder).evals@,
                r.claimed_sum@,
            ),
    {
        let n = self.multiplicities.len();
        let ghost ts = lookup_terms(
            elements.model(),
            self.multiplicities_spec(),
            column_view(lut@[0]@),
            column_view(lut@[1]@),
            pow2(self.log_size_spec()),
        );
        let lut_col_0 = &lut[0];
        let lut_col_1 = &lut[1];
        let mut cols: Vec<Vec<M31>> = vec![Vec::new(), Vec::new(), Vec::new(), Vec::new()];
        let mut sum = QM31::zero();
        let mut row: usize = 0;
        while row < n
            invariant
                n == self.multiplicities@.len(),
                n == pow2(self.log_size_spec()),
                row <= n,
                lut_col_0@.len() >= n,
                lut_col_1@.len() >= n,
                lut_col_0 == lut@[0],
                lut_col_1 == lut@[1],
                ts.len() == n,
                ts == lookup_terms(elements.model(), self.multiplicities_spec(), column_view(lut@[0]@), column_view(lut@[1]@), n as nat),
                sum@ == qm31_sum(ts.subrange(0, row as int)),
                cols@.len() == 4,
                forall|j: int| 0 <= j < 4 ==> (#[trigger] cols@[j])@.len() == row,
                forall|j: int, i: int| 0 <= j < 4 && 0 <= i < row ==> #[trigger] cols@[j]@[i]@ == coord(qm31_sum(ts.subrange(0, i + 1)), j),
            decreases n - row,
        {
            let multiplicity = QM31::from_m31(self.multiplicities[row]);
            let input = lut_col_0[row];
            let output = lut_col_1[row];
            let denom = elements.combine(input, output);
            let term = multiplicity.neg().mul(denom.inverse());
            assert(term@ == ts[row as int]);
            sum = sum.add(term);
            proof {
                assert(ts.subrange(0, row + 1).drop_last() =~= ts.subrange(0, row as int));
            }
            let ghost old_cols = cols@;
            let cs = coords(sum);
            let mut j: usize = 0;
            while j < 4
                invariant
                    j <= 4,
                    cols@.len() == 4,
                    forall|k: int| 0 <= k < 4 ==> #[trigger] cs@[k]@ == coord(sum@, k),
                    forall|k: int| 0 <= k < j ==> (#[trigger] cols@[k])@ == old_cols[k]@.push(cs@[k]),
                    forall|k: int| j <= k < 4 ==> (#[trigger] cols@[k]) == old_cols[k],
                decreases 4 - j,
            {
                let mut c = cols[j].clone();
                c.push(cs[j]);
                cols.set(j, c);
                j = j + 1;
            }
            proof {
                assert forall|k: int, i: int| 0 <= k < 4 && 0 <= i < row + 1 implies #[trigger] cols@[k]@[i]@ == coord(qm31_sum(ts.subrange(0, i + 1)), k) by {
                    assert(cols@[k]@ == old_cols[k]@.push(cs@[k]));
                }
            }
            row = row + 1;
        }
        proof {
            assert(ts.subrange(0, n as int) =~= ts);
        }
        let ghost before = tree_builder.evals@;
        let log_size = self.log_size;
        let mut evals: Vec<CircleEvaluation> = Vec::new();
        let mut k: usize = 0;
        while k < 4
            invariant
                k <= 4,
                cols@.len() == 4 - k,
                evals@.len() == k,
                forall|j: int| 0 <= j < 4 - k ==> (#[trigger] cols@[j])@.len() == n,
                forall|j: int, i: int| 0 <= j < 4 - k && 0 <= i < n ==> #[trigger] cols@[j]@[i]@ == coord(qm31_sum(ts.subrange(0, i + 1)), j + k),
                forall|j: int| 0 <= j < k ==> {
                    &&& (#[trigger] evals@[j]).log_size == log_size
                    &&& evals@[j].values@.len() == n
                    &&& forall|i: int| 0 <= i < n ==> #[trigger] evals@[j].values@[i]@ == coord(qm31_sum(ts.subrange(0, i + 1)), j)
                },
            decreases 4 - k,
        {
            let ghost prev = cols@;
            let values = cols.remove(0);
            proof {
                assert forall|j: int, i: int| 0 <= j < 4 - (k + 1) && 0 <= i < n implies #[trigger] cols@[j]@[i]@ == coord(qm31_sum(ts.subrange(0, i + 1)), j + (k + 1)) by {
                    assert(cols@[j] == prev[j + 1]);
                }
            }
            evals.push(CircleEvaluation { log_size, values });
            k = k + 1;
        }
        tree_builder.extend_evals(evals);
        proof {
            assert(tree_builder.evals@.subrange(0, before.len() as int) =~= before);
        }
        InteractionClaim { claimed_sum: sum }
    }
}

} // verus!
