use luminair::binary::{AddEval, MulEval};
use luminair::exp2::Exp2Eval;
use luminair::exp2_lookup::{
    Exp2LookupClaimGenerator, Exp2LookupTraceTable, Exp2LookupTraceTableRow,
};
use luminair::field::{M31, QM31};
use luminair::interaction::{write_interaction_phase, LuminairInteractionClaimGenerator};
use luminair::logup::{RelationElements, RowEvaluator};
use luminair::pie::TableTrace;
use luminair::table::{n_columns, padding_row, trace_evaluation, MulTable, OpKind};
use luminair::trace::{Claim, TraceError, TreeBuilder};

fn m(x: u32) -> M31 {
    M31::from_u32(x)
}

fn q(a: u32, b: u32, c: u32, d: u32) -> QM31 {
    QM31 { a: m(a), b: m(b), c: m(c), d: m(d) }
}

fn elements() -> RelationElements {
    RelationElements { alpha0: q(2, 0, 0, 1), alpha1: q(0, 3, 1, 0), beta: q(9, 8, 7, 6) }
}

fn column_values(trace: &luminair::trace::TraceEval) -> Vec<Vec<u32>> {
    trace.iter().map(|c| c.values.iter().map(|x| x.value()).collect()).collect()
}

#[test]
fn appended_padding_rows_change_nothing() {
    let rows: Vec<Vec<M31>> =
        (0..3).map(|i| (0..n_columns(OpKind::Mul)).map(|c| m(10 * i + c as u32)).collect()).collect();
    let mut padded = rows.clone();
    for _ in 0..5 {
        padded.push(padding_row(OpKind::Mul));
    }
    let (t1, c1) = trace_evaluation(OpKind::Mul, &rows).unwrap();
    let (t2, c2) = trace_evaluation(OpKind::Mul, &padded).unwrap();
    assert_eq!(c1, c2);
    assert_eq!(column_values(&t1), column_values(&t2));
}

#[test]
fn conversion_is_deterministic() {
    let rows: Vec<Vec<M31>> = (0..21).map(|i| vec![m(i); n_columns(OpKind::Mul)]).collect();
    let t = TableTrace::from_mul(MulTable { table: rows });
    let (a, ca) = t.to_trace().unwrap();
    let (b, cb) = t.to_trace().unwrap();
    assert_eq!(ca, cb);
    assert_eq!(column_values(&a), column_values(&b));
}

#[test]
fn exp2_padding_row_meets_constraints() {
    let eval = Exp2Eval::new(&Claim::new(4), elements(), elements());
    let r = eval.evaluate(RowEvaluator::new(padding_row(OpKind::Exp2)));
    assert!(r.constraints_hold());
}

#[test]
fn interaction_phase_writes_exp2_lookup() {
    let rows = vec![Exp2LookupTraceTableRow { multiplicity: m(2) }];
    let gen = Exp2LookupClaimGenerator::new(Exp2LookupTraceTable { table: rows });
    let mut tb = TreeBuilder::new();
    let (_, igen) = gen.write_trace(&mut tb).unwrap();
    let lut = vec![vec![m(1); 16], vec![m(2); 16]];
    let mut itb = TreeBuilder::new();
    let ic = write_interaction_phase(
        LuminairInteractionClaimGenerator { exp2_lookup: Some(igen) },
        &mut itb,
        &elements(),
        &lut,
    );
    assert_eq!(itb.evals.len(), 4);
    assert!(ic.add.is_none());
    let sum = ic.exp2_lookup.unwrap().claimed_sum;
    // -2 / d for the one used row; the rest add 0.
    let d = elements().combine(m(1), m(2));
    assert_eq!(sum.mul(d), QM31::from_m31(m(2)).neg());
    let none = write_interaction_phase(
        LuminairInteractionClaimGenerator { exp2_lookup: None },
        &mut itb,
        &elements(),
        &lut,
    );
    assert!(none.exp2_lookup.is_none());
    assert_eq!(itb.evals.len(), 4);
}

fn binary_row(lhs: u32, rhs: u32, out: u32) -> Vec<M31> {
    // node_id, lhs_id, rhs_id, idx, is_last_idx, next_node_id, next_lhs_id,
    // next_rhs_id, next_idx, lhs_val, rhs_val, out_val, lhs_mult, rhs_mult, out_mult
    vec![3, 1, 2, 0, 0, 3, 1, 2, 1, lhs, rhs, out, 2147483646, 2147483646, 1]
        .into_iter()
        .map(m)
        .collect()
}

#[test]
fn add_eval_checks_sum() {
    let eval = AddEval::new(&Claim::new(4), elements());
    let ok = eval.evaluate(RowEvaluator::new(binary_row(4096, 40960, 45056)));
    assert!(ok.constraints_hold());
    assert_eq!(ok.constraints.len(), 6);
    assert_eq!(ok.relations.len(), 3);
    assert_eq!(ok.relations[2].values[1].value(), 3);
    let bad = eval.evaluate(RowEvaluator::new(binary_row(4096, 40960, 45057)));
    assert_eq!(bad.constraints[1].value(), 2147483646);
}

#[test]
fn mul_eval_checks_product() {
    let eval = MulEval::new(&Claim::new(4), elements());
    let ok = eval.evaluate(RowEvaluator::new(binary_row(8192, 8192, 8192 * 8192 % 2147483647)));
    assert!(ok.constraints_hold());
    let bad = eval.evaluate(RowEvaluator::new(binary_row(8192, 8192, 16384)));
    assert!(!bad.constraints_hold());
}

#[test]
fn add_rows_checked_for_constraint_failure() {
    let eval = AddEval::new(&Claim::new(4), elements());
    let good = vec![binary_row(1, 2, 3), binary_row(5, 6, 11)];
    assert_eq!(eval.check_rows(&good), Ok(()));
    let bad = vec![binary_row(1, 2, 3), binary_row(5, 6, 12)];
    assert_eq!(eval.check_rows(&bad), Err(TraceError::ConstraintFailure));
    assert_eq!(eval.check_rows(&vec![]), Ok(()));
}

#[test]
fn mul_rows_checked_for_constraint_failure() {
    let eval = MulEval::new(&Claim::new(4), elements());
    assert_eq!(eval.check_rows(&vec![binary_row(3, 4, 12)]), Ok(()));
    assert_eq!(eval.check_rows(&vec![binary_row(3, 4, 7)]), Err(TraceError::ConstraintFailure));
}

#[test]
fn exp2_rows_checked_for_constraint_failure() {
    let eval = Exp2Eval::new(&Claim::new(4), elements(), elements());
    let pad = padding_row(OpKind::Exp2);
    assert_eq!(eval.check_rows(&vec![pad.clone(), pad.clone()]), Ok(()));
    let mut bad = pad.clone();
    bad[3] = m(5);
    assert_eq!(eval.check_rows(&vec![pad, bad]), Err(TraceError::ConstraintFailure));
}

#[test]
fn appended_zero_multiplicities_change_nothing() {
    let base: Vec<Exp2LookupTraceTableRow> =
        [3, 1, 4].iter().map(|x| Exp2LookupTraceTableRow { multiplicity: m(*x) }).collect();
    let mut longer = base.clone();
    longer.push(Exp2LookupTraceTableRow::padding());
    longer.push(Exp2LookupTraceTableRow::padding());
    let mut tb1 = TreeBuilder::new();
    let mut tb2 = TreeBuilder::new();
    let (c1, _) = Exp2LookupClaimGenerator::new(Exp2LookupTraceTable { table: base }).write_trace(&mut tb1).unwrap();
    let (c2, _) = Exp2LookupClaimGenerator::new(Exp2LookupTraceTable { table: longer }).write_trace(&mut tb2).unwrap();
    assert_eq!(c1, c2);
    assert_eq!(column_values(&tb1.evals), column_values(&tb2.evals));
}
