//! The constraints of the element-wise binary operators, add and mul.
use crate::field::{m31_add, m31_mul, m31_sub, M31};
use crate::logup::{NodeElements, Relation, RelationEntry, RowEvaluator};
use crate::trace::{column_view, Claim, TraceError};
use vstd::prelude::*;

verus! {

/// Number of columns a binary-operator row reads.
pub const BINARY_N_COLUMNS: usize = 15;

/// The element-wise binary operators.
#[derive(Clone, Copy, Debug, PartialEq, Eq, Structural)]
pub enum BinaryOp {
    Add,
    Mul,
}

/// The arithmetic constraint of the operator on `lhs`, `rhs` and `out`.
pub open spec fn binary_arith(op: BinaryOp, lhs: int, rhs: int, out: int) -> int {
    match op {
        BinaryOp::Add => m31_sub(m31_add(lhs, rhs), out),
        BinaryOp::Mul => m31_sub(m31_mul(lhs, rhs), out),
    }
}

/// The constraints of one row `m`, read in the order `node_id, lhs_id, rhs_id,
/// idx, is_last_idx, next_node_id, next_lhs_id, next_rhs_id, next_idx,
/// lhs_val, rhs_val, out_val, lhs_mult, rhs_mult, out_mult`.
///
/// `is_last_idx` is boolean; the output is the operator applied to the
/// operands; unless the row is the last of its node, the next row has the same
/// node and inputs and the next index.
pub open spec fn binary_constraints(op: BinaryOp, m: Seq<int>) -> Seq<int> {
    let is_last = m[4];
    let not_last = m31_sub(1, is_last);
    seq![
        m31_mul(is_last, m31_sub(is_last, 1)),
        binary_arith(op, m[9], m[10], m[11]),
        m31_mul(not_last, m31_sub(m[5], m[0])),
        m31_mul(not_last, m31_sub(m[6], m[1])),
        m31_mul(not_last, m31_sub(m[7], m[2])),
        m31_mul(not_last, m31_sub(m31_sub(m[8], m[3]), 1)),
    ]
}

/// The LogUp terms of one row: the two input tokens `(lhs_val, lhs_id)` and
/// `(rhs_val, rhs_id)`, and the output token `(out_val, node_id)`, each with
/// its multiplicity, all against the node relation.
pub open spec fn binary_relations(m: Seq<int>) -> Seq<(Relation, int, Seq<int>)> {
    seq![
        (Relation::Node, m[12], seq![m[9], m[1]]),
        (Relation::Node, m[13], seq![m[10], m[2]]),
        (Relation::Node, m[14], seq![m[11], m[0]]),
    ]
}

fn evaluate_binary(op: BinaryOp, eval: RowEvaluator) -> (r: RowEvaluator)
    requires
        eval.cursor + BINARY_N_COLUMNS <= eval.mask@.len(),
    ensures
        r@.mask == eval@.mask,
        r@.cursor == eval@.cursor + BINARY_N_COLUMNS,
        r@.constraints == eval@.constraints + binary_constraints(
            op,
            eval@.mask.subrange(eval@.cursor, eval@.cursor + BINARY_N_COLUMNS),
        ),
        r@.relations == eval@.relations + binary_relations(
            eval@.mask.subrange(eval@.cursor, eval@.cursor + BINARY_N_COLUMNS),
        ),
        r@.finalized,
{
    let mut eval = eval;
    let ghost e0 = eval@;
    let node_id = eval.next_trace_mask();
    let lhs_id = eval.next_trace_mask();
    let rhs_id = eval.next_trace_mask();
    let idx = eval.next_trace_mask();
    let is_last_idx = eval.next_trace_mask();

    let next_node_id = eval.next_trace_mask();
    let next_lhs_id = eval.next_trace_mask();
    let next_rhs_id = eval.next_trace_mask();
    let next_idx = eval.next_trace_mask();

    let lhs_val = eval.next_trace_mask();
    let rhs_val = eval.next_trace_mask();
    let out_val = eval.next_trace_mask();

    let lhs_mult = eval.next_trace_mask();
    let rhs_mult = eval.next_trace_mask();
    let out_mult = eval.next_trace_mask();

    let one = M31::one();
    eval.add_constraint(is_last_idx.mul(is_last_idx.sub(one)));
    let value = match op {
        BinaryOp::Add => lhs_val.add(rhs_val),
        BinaryOp::Mul => lhs_val.mul(rhs_val),
    };
    eval.add_constraint(value.sub(out_val));

    let not_last = one.sub(is_last_idx);
    eval.add_constraint(not_last.mul(next_node_id.sub(node_id)));
    eval.add_constraint(not_last.mul(next_lhs_id.sub(lhs_id)));
    eval.add_constraint(not_last.mul(next_rhs_id.sub(rhs_id)));
    eval.add_constraint(not_last.mul(next_idx.sub(idx).sub(one)));

    eval.add_to_relation(RelationEntry { relation: Relation::Node, multiplicity: lhs_mult, values: vec![lhs_val, lhs_id] });
    eval.add_to_relation(RelationEntry { relation: Relation::Node, multiplicity: rhs_mult, values: vec![rhs_val, rhs_id] });
    eval.add_to_relation(RelationEntry { relation: Relation::Node, multiplicity: out_mult, values: vec![out_val, node_id] });

    eval.finalize_logup();
    proof {
        let m = e0.mask.subrange(e0.cursor, e0.cursor + BINARY_N_COLUMNS);
        let n = e0.relations.len() as int;
        assert(eval@.constraints =~= e0.constraints + binary_constraints(op, m));
        assert(eval@.relations[n].2 =~= seq![m[9], m[1]]);
        assert(eval@.relations[n + 1].2 =~= seq![m[10], m[2]]);
        assert(eval@.relations[n + 2].2 =~= seq![m[11], m[0]]);
        assert(eval@.relations =~= e0.relations + binary_relations(m));
    }
    eval
}

/// Every row meets every constraint of the operator.
pub open spec fn binary_rows_hold(op: BinaryOp, rows: Seq<Vec<M31>>) -> bool {
    forall|i: int, j: int| 0 <= i < rows.len() && 0 <= j < 6
        ==> #[trigger] binary_constraints(op, column_view(rows[i]@))[j] == 0
}

fn check_binary_rows(op: BinaryOp, rows: &Vec<Vec<M31>>) -> (r: Result<(), TraceError>)
    requires
        forall|i: int| 0 <= i < rows@.len() ==> (#[trigger] rows@[i])@.len() == BINARY_N_COLUMNS,
    ensures
        r is Ok <==> binary_rows_hold(op, rows@),
        r matches Err(e) ==> e == TraceError::ConstraintFailure,
{
    let mut i: usize = 0;
    while i < rows.len()
        invariant
            i <= rows@.len(),
            forall|k: int| 0 <= k < rows@.len() ==> (#[trigger] rows@[k])@.len() == BINARY_N_COLUMNS,
            binary_rows_hold(op, rows@.subrange(0, i as int)),
        decreases rows@.len() - i,
    {
        let row = rows[i].clone();
        let r = evaluate_binary(op, RowEvaluator::new(row));
        proof {
            let m = column_view(rows@[i as int]@);
            assert(r@.mask.subrange(0, 15) =~= m);
            assert(r@.constraints =~= binary_constraints(op, m));
        }
        if !r.constraints_hold() {
            proof {
                let j = choose|j: int| 0 <= j < r.constraints@.len() && #[trigger] r.constraints@[j]@ != 0;
                let k = i as int;
                assert(rows@.subrange(0, rows@.len() as int)[k] == rows@[k]);
                assert(binary_constraints(op, column_view(rows@[k]@))[j] != 0);
            }
            return Err(TraceError::ConstraintFailure);
        }
        proof {
            assert forall|k: int, j: int| 0 <= k < i + 1 && 0 <= j < 6 implies #[trigger] binary_constraints(
                op,
                column_view(rows@.subrange(0, i + 1)[k]@),
            )[j] == 0 by {
                if k < i {
                    assert(rows@.subrange(0, i + 1)[k] == rows@.subrange(0, i as int)[k]);
                }
            }
        }
        i = i + 1;
    }
    proof {
        assert(rows@.subrange(0, rows@.len() as int) =~= rows@);
    }
    Ok(())
}

/// The constraints of the add component.
#[derive(Clone, Copy, Debug, PartialEq, Eq, Structural)]
pub struct AddEval {
    pub log_size: u32,
    pub lookup_elements: NodeElements,
}

/// The constraints of the mul component.
#[derive(Clone, Copy, Debug, PartialEq, Eq, Structural)]
pub struct MulEval {
    pub log_size: u32,
    pub lookup_elements: NodeElements,
}

impl AddEval {
    /// The component for a committed add trace.
    pub fn new(claim: &Claim, lookup_elements: NodeElements) -> (r: Self)
        ensures
            r.log_size == claim.log_size,
            r.lookup_elements == lookup_elements,
    {
        AddEval { log_size: claim.log_size, lookup_elements }
    }

    /// Checks every row of a trace against the component's constraints:
    /// `ConstraintFailure` exactly when some row breaks one.
    pub fn check_rows(&self, rows: &Vec<Vec<M31>>) -> (r: Result<(), TraceError>)
        requires
            forall|i: int| 0 <= i < rows@.len() ==> (#[trigger] rows@[i])@.len() == BINARY_N_COLUMNS,
        ensures
            r is Ok <==> binary_rows_hold(BinaryOp::Add, rows@),
            r matches Err(e) ==> e == TraceError::ConstraintFailure,
    {
        check_binary_rows(BinaryOp::Add, rows)
    }

    /// Reads one add row and records its constraints and LogUp terms.
    pub fn evaluate(&self, eval: RowEvaluator) -> (r: RowEvaluator)
        requires
            eval.cursor + BINARY_N_COLUMNS <= eval.mask@.len(),
        ensures
            r@.mask == eval@.mask,
            r@.cursor == eval@.cursor + BINARY_N_COLUMNS,
            r@.constraints == eval@.constraints + binary_constraints(
                BinaryOp::Add,
                eval@.mask.subrange(eval@.cursor, eval@.cursor + BINARY_N_COLUMNS),
            ),
            r@.relations == eval@.relations + binary_relations(
                eval@.mask.subrange(eval@.cursor, eval@.cursor + BINARY_N_COLUMNS),
            ),
            r@.finalized,
    {
        evaluate_binary(BinaryOp::Add, eval)
    }
}

impl MulEval {
    /// The component for a committed mul trace.
    pub fn new(claim: &Claim, lookup_elements: NodeElements) -> (r: Self)
        ensures
            r.log_size == claim.log_size,
            r.lookup_elements == lookup_elements,
    {
        MulEval { log_size: claim.log_size, lookup_elements }
    }

    /// Checks every row of a trace against the component's constraints:
    /// `ConstraintFailure` exactly when some row breaks one.
    pub fn check_rows(&self, rows: &Vec<Vec<M31>>) -> (r: Result<(), TraceError>)
        requires
            forall|i: int| 0 <= i < rows@.len() ==> (#[trigger] rows@[i])@.len() == BINARY_N_COLUMNS,
        ensures
            r is Ok <==> binary_rows_hold(BinaryOp::Mul, rows@),
            r matches Err(e) ==> e == TraceError::ConstraintFailure,
    {
        check_binary_rows(BinaryOp::Mul, rows)
    }

    /// Reads one mul row and records its constraints and LogUp terms.
    pub fn evaluate(&self, eval: RowEvaluator) -> (r: RowEvaluator)
        requires
            eval.cursor + BINARY_N_COLUMNS <= eval.mask@.len(),
        ensures
            r@.mask == eval@.mask,
            r@.cursor == eval@.cursor + BINARY_N_COLUMNS,
            r@.constraints == eval@.constraints + binary_constraints(
                BinaryOp::Mul,
                eval@.mask.subrange(eval@.cursor, eval@.cursor + BINARY_N_COLUMNS),
            ),
            r@.relations == eval@.relations + binary_relations(
                eval@.mask.subrange(eval@.cursor, eval@.cursor + BINARY_N_COLUMNS),
            ),
            r@.finalized,
    {
        evaluate_binary(BinaryOp::Mul, eval)
    }
}

} // verus!
