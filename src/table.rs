//! Operator row schemas, padding rows, and the conversion of a table into
//! trace columns.
use crate::field::M31;
use crate::trace::{
    is_padded_log_size, padded_log_size, CircleEvaluation, Claim, TraceError,
    TraceEval,
};
use vstd::arithmetic::power2::pow2;
use vstd::prelude::*;

verus! {

/// The operators that have a trace component.
#[derive(Clone, Copy, Debug, PartialEq, Eq, Structural)]
pub enum OpKind {
    Add,
    Mul,
    Recip,
    Sqrt,
    Sin,
    SinLookup,
    SumReduce,
    MaxReduce,
    Exp2,
    Exp2Lookup,
}

/// Number of main-trace columns in the operator's row schema.
///
/// Binary operators: `node_id, lhs_id, rhs_id, idx, is_last_idx, next_node_id,
/// next_lhs_id, next_rhs_id, next_idx, lhs_val, rhs_val, out_val, lhs_mult,
/// rhs_mult, out_mult`.
/// Recip and sqrt: `node_id, input_id, idx, is_last_idx, next_node_id,
/// next_input_id, next_idx, input_val, out_val, rem_val, scale, input_mult,
/// out_mult`.
/// Exp2: as recip, then `lookup_mult`.
/// Sin: `node_id, input_id, idx, is_last_idx, next_node_id, next_input_id,
/// next_idx, input_val, out_val, input_mult, out_mult, lookup_mult`.
/// Sum reduce: `node_id, input_id, idx, is_last_idx, next_node_id,
/// next_input_id, next_idx, input_val, out_val, acc, next_acc, is_last_step,
/// input_mult, out_mult`.
/// Max reduce: as sum reduce, with `max_val, next_max_val, is_last_step,
/// is_max` in place of the accumulator columns.
/// Lookups: `multiplicity`.
pub open spec fn n_columns_spec(k: OpKind) -> nat {
    match k {
        OpKind::Add | OpKind::Mul | OpKind::MaxReduce => 15,
        OpKind::Recip | OpKind::Sqrt => 13,
        OpKind::Sin => 12,
        OpKind::Exp2 => 14,
        OpKind::SumReduce => 14,
        OpKind::SinLookup | OpKind::Exp2Lookup => 1,
    }
}

/// Position of the `is_last_idx` column, or -1 where the schema has none.
pub open spec fn last_flag_column_spec(k: OpKind) -> int {
    match k {
        OpKind::Add | OpKind::Mul => 4,
        OpKind::SinLookup | OpKind::Exp2Lookup => -1,
        _ => 3,
    }
}

/// The padding row is all zero but for `is_last_idx = 1`.
pub open spec fn padding_value(k: OpKind, c: int) -> int {
    if c == last_flag_column_spec(k) {
        1
    } else {
        0
    }
}

/// The padding row as field-element views.
pub open spec fn padding_seq(k: OpKind) -> Seq<int> {
    Seq::new(n_columns_spec(k), |c: int| padding_value(k, c))
}

pub fn n_columns(k: OpKind) -> (r: usize)
    ensures
        r == n_columns_spec(k),
{
    match k {
        OpKind::Add | OpKind::Mul | OpKind::MaxReduce => 15,
        OpKind::Recip | OpKind::Sqrt => 13,
        OpKind::Sin => 12,
        OpKind::Exp2 => 14,
        OpKind::SumReduce => 14,
        OpKind::SinLookup | OpKind::Exp2Lookup => 1,
    }
}

/// The canonical row that fills a table up to its padded size.
pub fn padding_row(k: OpKind) -> (r: Vec<M31>)
    ensures
        r@.len() == n_columns_spec(k),
        forall|c: int| 0 <= c < r@.len() ==> #[trigger] r@[c]@ == padding_value(k, c),
{
    let n = n_columns(k);
    let flag: usize = match k {
        OpKind::Add | OpKind::Mul => 4,
        OpKind::SinLookup | OpKind::Exp2Lookup => n,
        _ => 3,
    };
    let mut row: Vec<M31> = Vec::new();
    let mut c: usize = 0;
    while c < n
        invariant
            c <= n,
            n == n_columns_spec(k),
            (flag == n && last_flag_column_spec(k) == -1) || flag as int == last_flag_column_spec(k),
            last_flag_column_spec(k) < n,
            row@.len() == c,
            forall|j: int| 0 <= j < c ==> #[trigger] row@[j]@ == padding_value(k, j),
        decreases n - c,
    {
        if c == flag {
            row.push(M31::one());
        } else {
            row.push(M31::zero());
        }
        c = c + 1;
    }
    row
}

/// Every row follows the operator's schema.
pub open spec fn rows_fit(k: OpKind, rows: Seq<Vec<M31>>) -> bool {
    forall|r: int| 0 <= r < rows.len() ==> #[trigger] rows[r]@.len() == n_columns_spec(k)
}

/// The value of column `c` at row `r` of the padded table.
pub open spec fn cell(k: OpKind, rows: Seq<Vec<M31>>, c: int, r: int) -> int {
    if r < rows.len() {
        rows[r]@[c]@
    } else {
        padding_value(k, c)
    }
}

/// `trace` holds one column per schema field, each the padded table's column
/// over `2^log_size` rows.
pub open spec fn is_trace_of(k: OpKind, rows: Seq<Vec<M31>>, log_size: nat, trace: Seq<CircleEvaluation>) -> bool {
    &&& trace.len() == n_columns_spec(k)
    &&& forall|c: int| 0 <= c < trace.len() ==> {
        &&& (#[trigger] trace[c]).log_size == log_size
        &&& trace[c].values@.len() == pow2(log_size)
        &&& forall|r: int| 0 <= r < pow2(log_size) ==> #[trigger] trace[c].values@[r]@ == cell(k, rows, c, r)
    }
}

/// What converting a table of `rows` gives: `EmptyTrace` for no row, else the
/// padded columns and the claim of their log-size.
pub open spec fn trace_evaluation_result(
    k: OpKind,
    rows: Seq<Vec<M31>>,
    res: Result<(TraceEval, Claim), TraceError>,
) -> bool {
    match res {
        Ok((trace, claim)) => rows.len() > 0 && is_padded_log_size(rows.len(), claim.log_size as nat)
            && is_trace_of(k, rows, claim.log_size as nat, trace@),
        Err(e) => rows.len() == 0 && e == TraceError::EmptyTrace,
    }
}

/// Column `c` of the table padded to `size` rows.
fn padded_column(k: OpKind, rows: &Vec<Vec<M31>>, c: usize, size: usize) -> (r: Vec<M31>)
    requires
        rows_fit(k, rows@),
        c < n_columns_spec(k),
        rows@.len() <= size,
    ensures
        r@.len() == size,
        forall|i: int| 0 <= i < size ==> #[trigger] r@[i]@ == cell(k, rows@, c as int, i),
{
    let pad = padding_row(k);
    let mut col: Vec<M31> = Vec::new();
    let mut i: usize = 0;
    while i < size
        invariant
            i <= size,
            rows_fit(k, rows@),
            c < n_columns_spec(k),
            rows@.len() <= size,
            pad@.len() == n_columns_spec(k),
            forall|j: int| 0 <= j < pad@.len() ==> #[trigger] pad@[j]@ == padding_value(k, j),
            col@.len() == i,
            forall|j: int| 0 <= j < i ==> #[trigger] col@[j]@ == cell(k, rows@, c as int, j),
        decreases size - i,
    {
        if i < rows.len() {
            assert(rows@[i as int]@.len() == n_columns_spec(k));
            col.push(rows[i][c]);
        } else {
            col.push(pad[c]);
        }
        i = i + 1;
    }
    col
}

/// Pads the table to its power-of-two size and emits one column per schema
/// field, with the claim of the log-size.
pub fn trace_evaluation(k: OpKind, rows: &Vec<Vec<M31>>) -> (res: Result<(TraceEval, Claim), TraceError>)
    requires
        rows_fit(k, rows@),
        rows@.len() <= usize::MAX / 2,
    ensures
        trace_evaluation_result(k, rows@, res),
{
    if rows.len() == 0 {
        return Err(TraceError::EmptyTrace);
    }
    let (log_size, size) = padded_log_size(rows.len());
    let n = n_columns(k);
    let mut trace: Vec<CircleEvaluation> = Vec::new();
    let mut c: usize = 0;
    while c < n
        invariant
            c <= n,
            n == n_columns_spec(k),
            rows_fit(k, rows@),
            rows@.len() <= size,
            size == pow2(log_size as nat),
            trace@.len() == c,
            forall|j: int| 0 <= j < c ==> {
                &&& (#[trigger] trace@[j]).log_size == log_size
                &&& trace@[j].values@.len() == pow2(log_size as nat)
                &&& forall|r: int| 0 <= r < pow2(log_size as nat) ==> #[trigger] trace@[j].values@[r]@ == cell(k, rows@, j, r)
            },
        decreases n - c,
    {
        let values = padded_column(k, rows, c, size);
        trace.push(CircleEvaluation { log_size, values });
        c = c + 1;
    }
    Ok((trace, Claim::new(log_size)))
}

/// Rows of the addition component, one per element, in schema order.
#[derive(Clone, Debug)]
pub struct AddTable {
    pub table: Vec<Vec<M31>>,
}

impl AddTable {
    pub open spec fn wf(&self) -> bool {
        rows_fit(OpKind::Add, self.table@) && self.table@.len() <= usize::MAX / 2
    }

    /// The padded columns of the table and the claim of their log-size.
    pub fn trace_evaluation(&self) -> (res: Result<(TraceEval, Claim), TraceError>)
        requires
            self.wf(),
        ensures
            trace_evaluation_result(OpKind::Add, self.table@, res),
    {
        trace_evaluation(OpKind::Add, &self.table)
    }
}

/// Rows of the multiplication component, one per element, in schema order.
#[derive(Clone, Debug)]
pub struct MulTable {
    pub table: Vec<Vec<M31>>,
}

impl MulTable {
    pub open spec fn wf(&self) -> bool {
        rows_fit(OpKind::Mul, self.table@) && self.table@.len() <= usize::MAX / 2
    }

    /// The padded columns of the table and the claim of their log-size.
    pub fn trace_evaluation(&self) -> (res: Result<(TraceEval, Claim), TraceError>)
        requires
            self.wf(),
        ensures
            trace_evaluation_result(OpKind::Mul, self.table@, res),
    {
        trace_evaluation(OpKind::Mul, &self.table)
    }
}

/// Rows of the reciprocal component, one per element, in schema order.
#[derive(Clone, Debug)]
pub struct RecipTable {
    pub table: Vec<Vec<M31>>,
}

impl RecipTable {
    pub open spec fn wf(&self) -> bool {
        rows_fit(OpKind::Recip, self.table@) && self.table@.len() <= usize::MAX / 2
    }

    /// The padded columns of the table and the claim of their log-size.
    pub fn trace_evaluation(&self) -> (res: Result<(TraceEval, Claim), TraceError>)
        requires
            self.wf(),
        ensures
            trace_evaluation_result(OpKind::Recip, self.table@, res),
    {
        trace_evaluation(OpKind::Recip, &self.table)
    }
}

/// Rows of the square root component, one per element, in schema order.
#[derive(Clone, Debug)]
pub struct SqrtTable {
    pub table: Vec<Vec<M31>>,
}

impl SqrtTable {
    pub open spec fn wf(&self) -> bool {
        rows_fit(OpKind::Sqrt, self.table@) && self.table@.len() <= usize::MAX / 2
    }

    /// The padded columns of the table and the claim of their log-size.
    pub fn trace_evaluation(&self) -> (res: Result<(TraceEval, Claim), TraceError>)
        requires
            self.wf(),
        ensures
            trace_evaluation_result(OpKind::Sqrt, self.table@, res),
    {
        trace_evaluation(OpKind::Sqrt, &self.table)
    }
}

/// Rows of the sine component, one per element, in schema order.
#[derive(Clone, Debug)]
pub struct SinTable {
    pub table: Vec<Vec<M31>>,
}

impl SinTable {
    pub open spec fn wf(&self) -> bool {
        rows_fit(OpKind::Sin, self.table@) && self.table@.len() <= usize::MAX / 2
    }

    /// The padded columns of the table and the claim of their log-size.
    pub fn trace_evaluation(&self) -> (res: Result<(TraceEval, Claim), TraceError>)
        requires
            self.wf(),
        ensures
            trace_evaluation_result(OpKind::Sin, self.table@, res),
    {
        trace_evaluation(OpKind::Sin, &self.table)
    }
}

/// Rows of the sine lookup-table multiplicity component, one per element, in schema order.
#[derive(Clone, Debug)]
pub struct SinLookupTable {
    pub table: Vec<Vec<M31>>,
}

impl SinLookupTable {
    pub open spec fn wf(&self) -> bool {
        rows_fit(OpKind::SinLookup, self.table@) && self.table@.len() <= usize::MAX / 2
    }

    /// The padded columns of the table and the claim of their log-size.
    pub fn trace_evaluation(&self) -> (res: Result<(TraceEval, Claim), TraceError>)
        requires
            self.wf(),
        ensures
            trace_evaluation_result(OpKind::SinLookup, self.table@, res),
    {
        trace_evaluation(OpKind::SinLookup, &self.table)
    }
}

/// Rows of the sum reduction component, one per element, in schema order.
#[derive(Clone, Debug)]
pub struct SumReduceTable {
    pub table: Vec<Vec<M31>>,
}

impl SumReduceTable {
    pub open spec fn wf(&self) -> bool {
        rows_fit(OpKind::SumReduce, self.table@) && self.table@.len() <= usize::MAX / 2
    }

    /// The padded columns of the table and the claim of their log-size.
    pub fn trace_evaluation(&self) -> (res: Result<(TraceEval, Claim), TraceError>)
        requires
            self.wf(),
        ensures
            trace_evaluation_result(OpKind::SumReduce, self.table@, res),
    {
        trace_evaluation(OpKind::SumReduce, &self.table)
    }
}

/// Rows of the max reduction component, one per element, in schema order.
#[derive(Clone, Debug)]
pub struct MaxReduceTable {
    pub table: Vec<Vec<M31>>,
}

impl MaxReduceTable {
    pub open spec fn wf(&self) -> bool {
        rows_fit(OpKind::MaxReduce, self.table@) && self.table@.len() <= usize::MAX / 2
    }

    /// The padded columns of the table and the claim of their log-size.
    pub fn trace_evaluation(&self) -> (res: Result<(TraceEval, Claim), TraceError>)
        requires
            self.wf(),
        ensures
            trace_evaluation_result(OpKind::MaxReduce, self.table@, res),
    {
        trace_evaluation(OpKind::MaxReduce, &self.table)
    }
}

/// Rows of the base-2 exponential component, one per element, in schema order.
#[derive(Clone, Debug)]
pub struct Exp2Table {
    pub table: Vec<Vec<M31>>,
}

impl Exp2Table {
    pub open spec fn wf(&self) -> bool {
        rows_fit(OpKind::Exp2, self.table@) && self.table@.len() <= usize::MAX / 2
    }

    /// The padded columns of the table and the claim of their log-size.
    pub fn trace_evaluation(&self) -> (res: Result<(TraceEval, Claim), TraceError>)
        requires
            self.wf(),
        ensures
            trace_evaluation_result(OpKind::Exp2, self.table@, res),
    {
        trace_evaluation(OpKind::Exp2, &self.table)
    }
}

} // verus!
