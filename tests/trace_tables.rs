use luminair::add::{gen_add_trace, AddColumn};
use luminair::field::M31;
use luminair::pie::{ClaimType, TableTrace, Trace};
use luminair::table::{
    n_columns, padding_row, trace_evaluation, AddTable, MaxReduceTable, OpKind, SinLookupTable,
    SumReduceTable,
};
use luminair::trace::{padded_log_size, TraceError, TreeBuilder};

const SCALE: u32 = 1 << 12;

fn m(x: u32) -> M31 {
    M31::from_u32(x)
}

fn row(k: OpKind, fill: u32) -> Vec<M31> {
    (0..n_columns(k)).map(|c| m(fill + c as u32)).collect()
}

fn vals(col: &[M31]) -> Vec<u32> {
    col.iter().map(|x| x.value()).collect()
}

#[test]
fn add_scenario_outputs() {
    let lhs: Vec<M31> = [1, 2, 3, 4].iter().map(|x| m(x * SCALE)).collect();
    let rhs: Vec<M31> = [10, 20, 30, 40].iter().map(|x| m(x * SCALE)).collect();
    let (trace, claim, out) = gen_add_trace(4, &lhs, &rhs);
    assert_eq!(claim.log_size, 4);
    assert_eq!(vals(&out), vec![11 * SCALE, 22 * SCALE, 33 * SCALE, 44 * SCALE]);
    assert_eq!(trace.len(), 3);
    assert_eq!(trace[AddColumn::Res.index()].values.len(), 16);
    assert_eq!(trace[2].values[3].value(), 44 * SCALE);
    assert_eq!(trace[0].values[4].value(), 0);
    assert_eq!(AddColumn::count(), (3, 0));
}

#[test]
fn add_broadcasts_shorter_operand() {
    let lhs = vec![m(1), m(2), m(3)];
    let rhs = vec![m(100)];
    let (trace, _, out) = gen_add_trace(2, &lhs, &rhs);
    assert_eq!(vals(&out), vec![101, 102, 103]);
    assert_eq!(vals(&trace[1].values), vec![100, 100, 100, 0]);
}

#[test]
fn add_of_two_empty_operands_is_all_zero() {
    let (trace, claim, out) = gen_add_trace(4, &vec![], &vec![]);
    assert_eq!(claim.log_size, 4);
    assert!(out.is_empty());
    assert!(trace.iter().all(|c| c.values.iter().all(|x| x.value() == 0)));
}

#[test]
fn add_wraps_modulo_prime() {
    let p = 2147483647u32;
    let (_, _, out) = gen_add_trace(4, &vec![m(p - 1)], &vec![m(5)]);
    assert_eq!(vals(&out), vec![4]);
}

#[test]
fn padded_sizes() {
    assert_eq!(padded_log_size(1), (4, 16));
    assert_eq!(padded_log_size(16), (4, 16));
    assert_eq!(padded_log_size(17), (5, 32));
    assert_eq!(padded_log_size(100), (7, 128));
    assert_eq!(padded_log_size(400), (9, 512));
}

#[test]
fn empty_table_is_rejected() {
    let t = TableTrace::from_add(AddTable { table: vec![] });
    assert!(matches!(t.to_trace(), Err(TraceError::EmptyTrace)));
}

#[test]
fn add_table_pads_with_last_flag() {
    let rows = vec![row(OpKind::Add, 7), row(OpKind::Add, 9)];
    let t = TableTrace::from_add(AddTable { table: rows });
    let (trace, claim) = t.to_trace().unwrap();
    assert_eq!(claim, ClaimType::Add(luminair::trace::Claim::new(4)));
    assert_eq!(trace.len(), 15);
    assert_eq!(trace[0].values[1].value(), 9);
    assert_eq!(trace[4].values[0].value(), 11);
    assert_eq!(trace[4].values[2].value(), 1);
    assert_eq!(trace[5].values[2].value(), 0);
    assert_eq!(Trace::new(claim).claim, claim);
}

#[test]
fn padding_rows_per_operator() {
    assert_eq!(vals(&padding_row(OpKind::Add))[4], 1);
    assert_eq!(vals(&padding_row(OpKind::Recip))[3], 1);
    assert_eq!(vals(&padding_row(OpKind::SinLookup)), vec![0]);
}

#[test]
fn sum_reduce_table_of_400_rows_pads_to_512() {
    let rows: Vec<Vec<M31>> = (0..400).map(|i| row(OpKind::SumReduce, i)).collect();
    let t = TableTrace::from_sum_reduce(SumReduceTable { table: rows });
    let (trace, claim) = t.to_trace().expect("Trace generation failed");
    assert_eq!(claim, ClaimType::SumReduce(luminair::trace::Claim::new(9)));
    assert_eq!(trace.len(), 14);
    assert_eq!(trace[7].values[399].value(), 406);
    assert_eq!(trace[3].values[400].value(), 1);
}

#[test]
fn max_reduce_table_of_400_rows_pads_to_512() {
    let rows: Vec<Vec<M31>> = (0..400).map(|i| row(OpKind::MaxReduce, i)).collect();
    let t = TableTrace::from_max_reduce(MaxReduceTable { table: rows });
    let (trace, claim) = t.to_trace().expect("Trace generation failed");
    assert_eq!(claim, ClaimType::MaxReduce(luminair::trace::Claim::new(9)));
    assert_eq!(trace.len(), 15);
    assert!(trace.iter().all(|c| c.values.len() == 512));
}

#[test]
fn lookup_table_pads_with_zero() {
    let t = TableTrace::from_sin_lookup(SinLookupTable { table: vec![vec![m(3)]] });
    let (trace, _) = t.to_trace().unwrap();
    assert_eq!(trace[0].values[0].value(), 3);
    assert_eq!(trace[0].values[15].value(), 0);
}

#[test]
fn generic_evaluation_matches_table() {
    let rows = vec![row(OpKind::Exp2, 1); 20];
    let (trace, claim) = trace_evaluation(OpKind::Exp2, &rows).unwrap();
    assert_eq!(claim.log_size, 5);
    assert_eq!(trace.len(), 14);
    let mut tb = TreeBuilder::new();
    tb.extend_evals(trace);
    assert_eq!(tb.evals.len(), 14);
}
