//! The base-2 exponential component's constraints.
use crate::field::{m31_mul, m31_sub, M31};
use crate::logup::{Exp2LookupElements, NodeElements, Relation, RelationEntry, RowEvaluator};
use crate::trace::{column_view, Claim, TraceError};
use vstd::prelude::*;

verus! {

/// Number of columns an exp2 row reads.
pub const EXP2_N_COLUMNS: usize = 14;

/// The constraints of one exp2 row `m`, read in the order `node_id, input_id,
/// idx, is_last_idx, next_node_id, next_input_id, next_idx, input_val,
/// out_val, rem_val, scale, input_mult, out_mult, lookup_mult`.
///
/// `is_last_idx` is boolean; the arithmetic constraint is reserved (the value
/// relation is left to the lookup table); unless the row is the last of its
/// node, the next row has the same node and input and the next index.
pub open spec fn exp2_constraints(m: Seq<int>) -> Seq<int> {
    let node_id = m[0];
    let input_id = m[1];
    let idx = m[2];
    let is_last = m[3];
    let not_last = m31_sub(1, is_last);
    seq![
        m31_mul(is_last, m31_sub(is_last, 1)),
        (m31_sub(m31_mul(m[8], m[7]), m31_mul(m[8], m[7])) + m[9]) % crate::field::p(),
        m31_mul(not_last, m31_sub(m[4], node_id)),
        m31_mul(not_last, m31_sub(m[5], input_id)),
        m31_mul(not_last, m31_sub(m31_sub(m[6], idx), 1)),
    ]
}

/// The LogUp terms of one exp2 row: on the node relation, the input token
/// `(input_val, input_id)` with `input_mult` and the output token
/// `(out_val, node_id)` with `out_mult`; on the exp2 lookup relation, the
/// pair `(input_val, out_val)` with `lookup_mult`, which ties the output to a
/// row of the exp2 table.
pub open spec fn exp2_relations(m: Seq<int>) -> Seq<(Relation, int, Seq<int>)> {
    seq![
        (Relation::Node, m[11], seq![m[7], m[1]]),
        (Relation::Node, m[12], seq![m[8], m[0]]),
        (Relation::Exp2Lookup, m[13], seq![m[7], m[8]]),
    ]
}

/// The constraints of the exp2 component.
#[derive(Clone, Copy, Debug, PartialEq, Eq, Structural)]
pub struct Exp2Eval {
    log_size: u32,
    node_elements: NodeElements,
    lookup_elements: Exp2LookupElements,
}

impl Exp2Eval {
    pub closed spec fn log_size_spec(&self) -> u32 {
        self.log_size
    }

    pub closed spec fn node_elements_spec(&self) -> NodeElements {
        self.node_elements
    }

    pub closed spec fn lookup_elements_spec(&self) -> Exp2LookupElements {
        self.lookup_elements
    }

    /// The component for a committed exp2 trace, with the elements of the
    /// node relation and of the exp2 lookup relation.
    pub fn new(claim: &Claim, node_elements: NodeElements, lookup_elements: Exp2LookupElements) -> (r: Self)
        ensures
            r.log_size_spec() == claim.log_size,
            r.node_elements_spec() == node_elements,
            r.lookup_elements_spec() == lookup_elements,
    {
        Exp2Eval { log_size: claim.log_size, node_elements, lookup_elements }
    }

    /// Log-size of the main trace.
    pub fn log_size(&self) -> (r: u32)
        ensures
            r == self.log_size_spec(),
    {
        self.log_size
    }

    /// Log of the bound on the constraints' degree: one more than the trace's.
    pub fn max_constraint_log_degree_bound(&self) -> (r: u32)
        requires
            self.log_size_spec() < u32::MAX,
        ensures
            r == self.log_size_spec() + 1,
    {
        self.log_size + 1
    }

    /// Checks every row of an exp2 trace against the component's constraints:
    /// `ConstraintFailure` exactly when some row breaks one.
    pub fn check_rows(&self, rows: &Vec<Vec<M31>>) -> (r: Result<(), TraceError>)
        requires
            forall|i: int| 0 <= i < rows@.len() ==> (#[trigger] rows@[i])@.len() == EXP2_N_COLUMNS,
        ensures
            r is Ok <==> forall|i: int, j: int| 0 <= i < rows@.len() && 0 <= j < 5
                ==> #[trigger] exp2_constraints(column_view(rows@[i]@))[j] == 0,
            r matches Err(e) ==> e == TraceError::ConstraintFailure,
    {
        let mut i: usize = 0;
        while i < rows.len()
            invariant
                i <= rows@.len(),
                forall|k: int| 0 <= k < rows@.len() ==> (#[trigger] rows@[k])@.len() == EXP2_N_COLUMNS,
                forall|k: int, j: int| 0 <= k < i && 0 <= j < 5
                    ==> #[trigger] exp2_constraints(column_view(rows@[k]@))[j] == 0,
            decreases rows@.len() - i,
        {
            let row = rows[i].clone();
            let r = self.evaluate(RowEvaluator::new(row));
            proof {
                let m = column_view(rows@[i as int]@);
                assert(r@.mask.subrange(0, 14) =~= m);
                assert(r@.constraints =~= exp2_constraints(m));
            }
            if !r.constraints_hold() {
                return Err(TraceError::ConstraintFailure);
            }
            i = i + 1;
        }
        Ok(())
    }

    /// Reads one exp2 row and records its constraints and LogUp terms.
    pub fn evaluate(&self, eval: RowEvaluator) -> (r: RowEvaluator)
        requires
            eval.cursor + EXP2_N_COLUMNS <= eval.mask@.len(),
        ensures
            r@.mask == eval@.mask,
            r@.cursor == eval@.cursor + EXP2_N_COLUMNS,
            r@.constraints == eval@.constraints + exp2_constraints(
                eval@.mask.subrange(eval@.cursor, eval@.cursor + EXP2_N_COLUMNS),
            ),
            r@.relations == eval@.relations + exp2_relations(
                eval@.mask.subrange(eval@.cursor, eval@.cursor + EXP2_N_COLUMNS),
            ),
            r@.finalized,
    {
        let mut eval = eval;
        let ghost e0 = eval@;
        let node_id = eval.next_trace_mask();
        let input_id = eval.next_trace_mask();
        let idx = eval.next_trace_mask();
        let is_last_idx = eval.next_trace_mask();

        let next_node_id = eval.next_trace_mask();
        let next_input_id = eval.next_trace_mask();
        let next_idx = eval.next_trace_mask();

        let input_val = eval.next_trace_mask();
        let out_val = eval.next_trace_mask();
        let rem_val = eval.next_trace_mask();
        let _scale = eval.next_trace_mask();

        let input_mult = eval.next_trace_mask();
        let out_mult = eval.next_trace_mask();
        let lookup_mult = eval.next_trace_mask();

        let one = M31::one();
        eval.add_constraint(is_last_idx.mul(is_last_idx.sub(one)));
        eval.add_constraint(out_val.mul(input_val).sub(out_val.mul(input_val)).add(rem_val));

        let not_last = one.sub(is_last_idx);
        eval.add_constraint(not_last.mul(next_node_id.sub(node_id)));
        eval.add_constraint(not_last.mul(next_input_id.sub(input_id)));
        eval.add_constraint(not_last.mul(next_idx.sub(idx).sub(one)));

        eval.add_to_relation(
            RelationEntry { relation: Relation::Node, multiplicity: input_mult, values: vec![input_val, input_id] },
        );
        eval.add_to_relation(
            RelationEntry { relation: Relation::Node, multiplicity: out_mult, values: vec![out_val, node_id] },
        );
        eval.add_to_relation(
            RelationEntry {
                relation: Relation::Exp2Lookup,
                multiplicity: lookup_mult,
                values: vec![input_val, out_val],
            },
        );

        eval.finalize_logup();
        proof {
            let m = e0.mask.subrange(e0.cursor, e0.cursor + EXP2_N_COLUMNS);
            assert(eval@.constraints =~= e0.constraints + exp2_constraints(m));
            assert(eval@.relations[e0.relations.len() as int].2 =~= seq![m[7], m[1]]);
            assert(eval@.relations[e0.relations.len() + 1int].2 =~= seq![m[8], m[0]]);
            assert(eval@.relations[e0.relations.len() + 2int].2 =~= seq![m[7], m[8]]);
            assert(eval@.relations =~= e0.relations + exp2_relations(m));
        }
        eval
    }
}

} // verus!
