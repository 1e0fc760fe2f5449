use luminair::claims::{LuminairClaim, LuminairInteractionClaim, Transcript};
use luminair::exp2::Exp2Eval;
use luminair::exp2_lookup::{
    Exp2LookupClaimGenerator, Exp2LookupTraceTable, Exp2LookupTraceTableRow,
};
use luminair::field::{M31, QM31};
use luminair::logup::{Relation, RelationElements, RowEvaluator};
use luminair::pie::TableTrace;
use luminair::pie::{ExecutionResources, LuminairPie, OpCounter};
use luminair::prover::{prove_main_phase, twiddle_log_size, write_main_trace};
use luminair::table::{AddTable, OpKind, SinTable, n_columns};
use luminair::trace::{Claim, InteractionClaim, TraceError, TreeBuilder};

const SCALE: u32 = 1 << 12;

fn m(x: u32) -> M31 {
    M31::from_u32(x)
}

fn q(a: u32, b: u32, c: u32, d: u32) -> QM31 {
    QM31 { a: m(a), b: m(b), c: m(c), d: m(d) }
}

fn coords(x: QM31) -> [u32; 4] {
    [x.a.value(), x.b.value(), x.c.value(), x.d.value()]
}

fn lookup_elements() -> RelationElements {
    RelationElements { alpha0: q(43, 0, 1, 0), alpha1: q(0, 47, 0, 1), beta: q(53, 59, 61, 67) }
}

fn elements() -> RelationElements {
    RelationElements { alpha0: q(3, 5, 7, 11), alpha1: q(13, 17, 19, 23), beta: q(29, 31, 37, 41) }
}

#[test]
fn m31_arithmetic() {
    let p = 2147483647u32;
    assert_eq!(m(p).value(), 0);
    assert_eq!(m(p - 1).add(m(2)).value(), 1);
    assert_eq!(m(3).sub(m(5)).value(), p - 2);
    assert_eq!(m(7).neg().value(), p - 7);
    assert_eq!(m(0).neg().value(), 0);
    assert_eq!(m(1 << 16).mul(m(1 << 16)).value(), 2);
    assert_eq!(m(SCALE).mul(m(SCALE)).value(), 1 << 24);
}

#[test]
fn inverses() {
    assert_eq!(m(2).inverse().mul(m(2)).value(), 1);
    assert_eq!(m(12345).inverse().mul(m(12345)).value(), 1);
    assert_eq!(m(3).pow(4).value(), 81);
    assert_eq!(m(0).inverse().value(), 0);
    for x in [q(1, 0, 0, 0), q(1, 2, 3, 4), q(0, 0, 0, 7), q(2147483646, 5, 0, 9)] {
        assert_eq!(x.mul(x.inverse()), QM31::one());
    }
}

#[test]
fn qm31_multiplication() {
    // u^2 = 2 + i
    let u = q(0, 0, 1, 0);
    assert_eq!(coords(u.mul(u)), [2, 1, 0, 0]);
    // i^2 = -1
    let i = q(0, 1, 0, 0);
    assert_eq!(coords(i.mul(i)), [2147483646, 0, 0, 0]);
    assert_eq!(coords(q(1, 2, 3, 4).mul(QM31::one())), [1, 2, 3, 4]);
    assert_eq!(coords(q(1, 2, 3, 4).add(q(1, 2, 3, 4).neg())), [0, 0, 0, 0]);
}

#[test]
fn combine_is_affine() {
    let e = elements();
    let r = e.combine(m(1), m(0));
    assert_eq!(coords(r), [3 + 29, 5 + 31, 7 + 37, 11 + 41]);
    let r = e.combine(m(0), m(2));
    assert_eq!(coords(r), [26 + 29, 34 + 31, 38 + 37, 46 + 41]);
}

fn exp2_row(is_last: u32, rem: u32) -> Vec<M31> {
    // node_id, input_id, idx, is_last_idx, next_node_id, next_input_id, next_idx,
    // input_val, out_val, rem_val, scale, input_mult, out_mult, lookup_mult
    vec![5, 2, 0, is_last, 5, 2, 1, SCALE, 2 * SCALE, rem, 12, 2147483646, 1, 1]
        .into_iter()
        .map(m)
        .collect()
}

#[test]
fn exp2_constraints_hold_on_valid_row() {
    let eval = Exp2Eval::new(&Claim::new(6), elements(), lookup_elements());
    assert_eq!(eval.log_size(), 6);
    assert_eq!(eval.max_constraint_log_degree_bound(), 7);
    let r = eval.evaluate(RowEvaluator::new(exp2_row(0, 0)));
    assert_eq!(r.cursor, 14);
    assert_eq!(r.constraints.len(), 5);
    assert!(r.constraints_hold());
    assert!(r.finalized);
    assert_eq!(r.relations.len(), 3);
    assert_eq!(r.relations[0].relation, Relation::Node);
    assert_eq!(r.relations[0].values[0].value(), SCALE);
    assert_eq!(r.relations[0].values[1].value(), 2);
    assert_eq!(r.relations[1].values[0].value(), 2 * SCALE);
    assert_eq!(r.relations[1].values[1].value(), 5);
    // the (input, output) pair is looked up in the exp2 table
    assert_eq!(r.relations[2].relation, Relation::Exp2Lookup);
    assert_eq!(r.relations[2].multiplicity.value(), 1);
    assert_eq!(r.relations[2].values[0].value(), SCALE);
    assert_eq!(r.relations[2].values[1].value(), 2 * SCALE);
}

#[test]
fn exp2_constraints_catch_bad_rows() {
    let eval = Exp2Eval::new(&Claim::new(6), elements(), lookup_elements());
    let r = eval.evaluate(RowEvaluator::new(exp2_row(2, 0)));
    assert!(!r.constraints_hold());
    let r = eval.evaluate(RowEvaluator::new(exp2_row(0, 3)));
    assert_eq!(r.constraints[1].value(), 3);
    let mut bad = exp2_row(0, 0);
    bad[6] = m(4);
    let r = eval.evaluate(RowEvaluator::new(bad));
    assert!(!r.constraints_hold());
    // On the last row of a node the transition is free.
    let mut last = exp2_row(1, 0);
    last[4] = m(9);
    let r = eval.evaluate(RowEvaluator::new(last));
    assert!(r.constraints_hold());
}

fn lut() -> Vec<Vec<M31>> {
    // inputs 0, 1, 2, -1 (fixed point) and 2^x at scale 12
    let p = 2147483647u32;
    let mut input: Vec<M31> = vec![m(0), m(SCALE), m(2 * SCALE), m(p - SCALE)];
    let mut output: Vec<M31> = vec![m(SCALE), m(2 * SCALE), m(4 * SCALE), m(SCALE / 2)];
    input.resize(16, m(0));
    output.resize(16, m(SCALE));
    vec![input, output]
}

#[test]
fn exp2_lookup_trace_and_claim() {
    let rows: Vec<Exp2LookupTraceTableRow> =
        [1, 1, 1, 1].iter().map(|x| Exp2LookupTraceTableRow { multiplicity: m(*x) }).collect();
    let gen = Exp2LookupClaimGenerator::new(Exp2LookupTraceTable { table: rows });
    let mut tb = TreeBuilder::new();
    let (claim, igen) = gen.write_trace(&mut tb).unwrap();
    assert_eq!(claim.log_size, 4);
    assert_eq!(tb.evals.len(), 1);
    assert_eq!(tb.evals[0].values[3].value(), 1);
    assert_eq!(tb.evals[0].values[4].value(), 0);
    assert_eq!(Exp2LookupTraceTableRow::padding().multiplicity.value(), 0);

    let e = elements();
    let ic = igen.write_interaction_trace(&mut tb, &e, &lut());
    // one extension-field column: four coordinate columns
    assert_eq!(tb.evals.len(), 5);
    // row 0 holds -1 / combine(0, 4096)
    let d0 = e.combine(m(0), m(SCALE));
    let t0 = QM31::one().neg().mul(d0.inverse());
    assert_eq!(t0.mul(d0), QM31::one().neg());
    assert_eq!(tb.evals[1].values[0].value(), t0.a.value());
    assert_eq!(tb.evals[4].values[0].value(), t0.d.value());

    // The running sum stops growing on padding rows, and ends at the claim.
    let mut expected = QM31::zero();
    let l = lut();
    for r in 0..16 {
        let num = if r < 4 { QM31::one().neg() } else { QM31::zero() };
        expected = expected.add(num.mul(e.combine(l[0][r], l[1][r]).inverse()));
        assert_eq!(tb.evals[2].values[r].value(), expected.b.value());
    }
    assert_eq!(ic.claimed_sum, expected);
    assert_eq!(tb.evals[3].values[3].value(), tb.evals[3].values[15].value());
}

#[test]
fn exp2_lookup_empty_is_rejected() {
    let gen = Exp2LookupClaimGenerator::new(Exp2LookupTraceTable { table: vec![] });
    let mut tb = TreeBuilder::new();
    assert!(matches!(gen.write_trace(&mut tb), Err(TraceError::EmptyTrace)));
    assert_eq!(tb.evals.len(), 0);
}

#[test]
fn mul_token_consumed_by_recip_balances() {
    // mul emits (value 4, node 7) once; recip consumes it once.
    let e = elements();
    let d = e.combine(m(4 * SCALE), m(7));
    let emit = QM31::one().mul(d.inverse());
    let consume = QM31::one().neg().mul(d.inverse());
    let mut ic = LuminairInteractionClaim::empty();
    ic.mul = Some(InteractionClaim { claimed_sum: emit });
    ic.recip = Some(InteractionClaim { claimed_sum: consume });
    assert!(ic.is_balanced());
    ic.recip = Some(InteractionClaim { claimed_sum: emit });
    assert!(!ic.is_balanced());
}

#[test]
fn claims_mix_in_canonical_order() {
    let mut c = LuminairClaim::empty();
    c.exp2_lookup = Some(Claim::new(8));
    c.add = Some(Claim::new(5));
    c.sin = Some(Claim::new(6));
    let mut t = Transcript::new();
    c.mix_into(&mut t);
    assert_eq!(t.words, vec![5, 6, 8]);
    let sizes = c.log_sizes();
    assert_eq!(sizes.len(), 3);
    assert!(sizes[0].is_empty());
    assert_eq!(sizes[1].len(), 15 + 12 + 1);
    assert_eq!(sizes[1][0], 5);
    assert_eq!(sizes[1][15], 6);
    assert_eq!(sizes[1][27], 8);
    assert_eq!(sizes[2].len(), 12);
}

#[test]
fn interaction_claims_mix_four_words_each() {
    let mut ic = LuminairInteractionClaim::empty();
    ic.sin = Some(InteractionClaim { claimed_sum: q(1, 2, 3, 4) });
    ic.exp2_lookup = Some(InteractionClaim { claimed_sum: q(5, 6, 7, 8) });
    let mut t = Transcript::new();
    t.mix_u64(99);
    ic.mix_into(&mut t);
    assert_eq!(t.words, vec![99, 1, 2, 3, 4, 5, 6, 7, 8]);
}

#[test]
fn main_trace_in_table_order() {
    let add_rows = vec![vec![m(1); n_columns(OpKind::Add)]; 3];
    let sin_rows = vec![vec![m(2); n_columns(OpKind::Sin)]; 40];
    let tables = vec![
        TableTrace::from_add(AddTable { table: add_rows }),
        TableTrace::from_sin(SinTable { table: sin_rows }),
    ];
    let (claim, tree) = write_main_trace(&tables).unwrap();
    assert_eq!(claim.add, Some(Claim::new(4)));
    assert_eq!(claim.sin, Some(Claim::new(6)));
    assert_eq!(claim.mul, None);
    assert_eq!(tree.evals.len(), 15 + 12);
    assert_eq!(tree.evals[14].log_size, 4);
    assert_eq!(tree.evals[15].log_size, 6);
    assert_eq!(tree.evals[15].values[39].value(), 2);

    let bad = vec![
        TableTrace::from_add(AddTable { table: vec![vec![m(1); 15]] }),
        TableTrace::from_sin(SinTable { table: vec![] }),
    ];
    assert!(matches!(write_main_trace(&bad), Err(TraceError::EmptyTrace)));
}

#[test]
fn main_phase_binds_log_sizes() {
    let pie = LuminairPie {
        table_traces: vec![
            TableTrace::from_sin(SinTable { table: vec![vec![m(1); n_columns(OpKind::Sin)]; 40] }),
            TableTrace::from_add(AddTable { table: vec![vec![m(1); n_columns(OpKind::Add)]; 3] }),
        ],
        execution_resources: ExecutionResources {
            op_counter: OpCounter { add: 1, mul: 0, sum_reduce: 0, recip: 0, max_reduce: 0, sin: 1 },
            max_log_size: 6,
        },
    };
    let mut t = Transcript::new();
    let (claim, tree) = prove_main_phase(&pie, &mut t).unwrap();
    // canonical order: add before sin, whatever the table order
    assert_eq!(t.words, vec![4, 6]);
    assert_eq!(claim.sin, Some(Claim::new(6)));
    assert_eq!(tree.evals.len(), 12 + 15);
    assert_eq!(tree.evals[0].log_size, 6);
    assert_eq!(twiddle_log_size(pie.execution_resources.max_log_size, 1), 9);

    let empty = LuminairPie {
        table_traces: vec![TableTrace::from_add(AddTable { table: vec![] })],
        execution_resources: pie.execution_resources,
    };
    let mut t2 = Transcript::new();
    assert!(matches!(prove_main_phase(&empty, &mut t2), Err(TraceError::EmptyTrace)));
    assert!(t2.words.is_empty());
}
