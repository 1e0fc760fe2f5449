//! Properties that relate several functions of the library: padding, the
//! uniqueness of a table's trace, and cancellation in the LogUp sum.
use crate::claims::{total_sum, LuminairClaim};
use crate::pie::TableTrace;
use crate::prover::main_phase_result;
use crate::binary::{binary_constraints, BinaryOp};
use crate::exp2::exp2_constraints;
use crate::exp2_lookup::{padded_multiplicities, Exp2LookupTraceTableRow};
use crate::field::{
    cm31_add, cm31_mul, m31_add, qm31_add, qm31_inv, m31_mul, m31_neg, m31_sub, p, qm31_mul, qm31_neg,
    qm31_of, CM31Model, QM31Model, M31,
};
use crate::prover::lemma_padded_log_unique;
use crate::table::{cell, is_trace_of, padding_seq, rows_fit, n_columns_spec, padding_value, trace_evaluation_result, OpKind};
use crate::trace::{is_padded_log_size, CircleEvaluation, InteractionClaim, TraceError, TreeBuilder};
use vstd::arithmetic::div_mod::{
    lemma_add_mod_noop, lemma_add_mod_noop_right, lemma_fundamental_div_mod,
    lemma_mod_multiples_vanish, lemma_mul_mod_noop_left, lemma_sub_mod_noop,
};
use vstd::arithmetic::power2::pow2;
use vstd::prelude::*;

verus! {

proof fn lemma_shift(x: int, y: int, k: int)
    requires
        x == y + p() * k,
    ensures
        x % p() == y % p(),
{
    lemma_mod_multiples_vanish(k, y, p());
}

proof fn lemma_neg_is_mod(a: int)
    ensures
        m31_neg(a) == (-a) % p(),
{
    lemma_shift(p() - a, -a, 1);
}

proof fn lemma_neg_of_mod(x: int)
    ensures
        (-(x % p())) % p() == (-x) % p(),
{
    lemma_fundamental_div_mod(x, p());
    lemma_shift(-(x % p()), -x, x / p());
}

proof fn lemma_neg_mul(a: int, b: int)
    ensures
        m31_mul(m31_neg(a), b) == m31_neg(m31_mul(a, b)),
{
    lemma_neg_is_mod(a);
    lemma_mul_mod_noop_left(-a, b, p());
    assert((-a) * b == -(a * b)) by (nonlinear_arith);
    lemma_neg_is_mod(a * b % p());
    lemma_neg_of_mod(a * b);
}

proof fn lemma_neg_add(a: int, b: int)
    ensures
        m31_add(m31_neg(a), m31_neg(b)) == m31_neg(m31_add(a, b)),
{
    lemma_neg_is_mod(a);
    lemma_neg_is_mod(b);
    lemma_add_mod_noop(-a, -b, p());
    lemma_neg_is_mod((a + b) % p());
    lemma_neg_of_mod(a + b);
}

proof fn lemma_neg_sub(a: int, b: int)
    ensures
        m31_sub(m31_neg(a), m31_neg(b)) == m31_neg(m31_sub(a, b)),
{
    lemma_neg_is_mod(a);
    lemma_neg_is_mod(b);
    lemma_shift((-a) % p() - (-b) % p() + p(), (-a) % p() - (-b) % p(), 1);
    lemma_sub_mod_noop(-a, -b, p());
    lemma_neg_is_mod((a - b + p()) % p());
    lemma_neg_of_mod(a - b + p());
    lemma_shift(-(a - b + p()), -a + b, -1);
}

proof fn lemma_add_neg(a: int)
    ensures
        m31_add(a, m31_neg(a)) == 0,
{
    lemma_neg_is_mod(a);
    lemma_add_mod_noop_right(a, -a, p());
}

pub open spec fn cm31_neg(x: CM31Model) -> CM31Model {
    (m31_neg(x.0), m31_neg(x.1))
}

proof fn lemma_cm31_neg_mul(x: CM31Model, y: CM31Model)
    ensures
        cm31_mul(cm31_neg(x), y) == cm31_neg(cm31_mul(x, y)),
{
    lemma_neg_mul(x.0, y.0);
    lemma_neg_mul(x.1, y.1);
    lemma_neg_mul(x.0, y.1);
    lemma_neg_mul(x.1, y.0);
    lemma_neg_sub(m31_mul(x.0, y.0), m31_mul(x.1, y.1));
    lemma_neg_add(m31_mul(x.0, y.1), m31_mul(x.1, y.0));
}

proof fn lemma_cm31_neg_add(x: CM31Model, y: CM31Model)
    ensures
        cm31_add(cm31_neg(x), cm31_neg(y)) == cm31_neg(cm31_add(x, y)),
{
    lemma_neg_add(x.0, y.0);
    lemma_neg_add(x.1, y.1);
}

/// Negating a factor negates the product.
pub proof fn lemma_qm31_neg_mul(x: QM31Model, y: QM31Model)
    ensures
        qm31_mul(qm31_neg(x), y) == qm31_neg(qm31_mul(x, y)),
{
    let x0 = (x.0, x.1);
    let x1 = (x.2, x.3);
    let y0 = (y.0, y.1);
    let y1 = (y.2, y.3);
    lemma_cm31_neg_mul(x0, y0);
    lemma_cm31_neg_mul(x1, y1);
    lemma_cm31_neg_mul(cm31_mul(x1, y1), (2, 1));
    lemma_cm31_neg_add(cm31_mul(x0, y0), cm31_mul(cm31_mul(x1, y1), (2, 1)));
    lemma_cm31_neg_mul(x0, y1);
    lemma_cm31_neg_mul(x1, y0);
    lemma_cm31_neg_add(cm31_mul(x0, y1), cm31_mul(x1, y0));
}

/// A token emitted with multiplicity `m` and consumed with multiplicity `-m`
/// under the same combined denominator `d` adds nothing to the LogUp sum:
/// `m / d + (-m) / d = 0`.
pub proof fn lemma_token_cancels(m: QM31Model, d: QM31Model)
    ensures
        qm31_add(qm31_mul(m, qm31_inv(d)), qm31_mul(qm31_neg(m), qm31_inv(d))) == qm31_of(0),
{
    lemma_qm31_neg_mul(m, qm31_inv(d));
    let pr = qm31_mul(m, qm31_inv(d));
    lemma_add_neg(pr.0);
    lemma_add_neg(pr.1);
    lemma_add_neg(pr.2);
    lemma_add_neg(pr.3);
}

/// Every coordinate is a canonical base-field value.
pub open spec fn qm31_canonical(x: QM31Model) -> bool {
    0 <= x.0 < p() && 0 <= x.1 < p() && 0 <= x.2 < p() && 0 <= x.3 < p()
}

proof fn lemma_m31_units(a: int)
    requires
        0 <= a < p(),
    ensures
        m31_mul(a, 1) == a,
        m31_mul(1, a) == a,
        m31_mul(a, 0) == 0,
        m31_mul(0, a) == 0,
        m31_add(a, 0) == a,
        m31_add(0, a) == a,
        m31_sub(a, 0) == a,
        m31_sub(0, 0) == 0,
{
    vstd::arithmetic::div_mod::lemma_small_mod(a as nat, p() as nat);
    lemma_shift(a + p(), a, 1);
    lemma_shift(p(), 0, 1);
}

proof fn lemma_qm31_units(x: QM31Model)
    requires
        qm31_canonical(x),
    ensures
        qm31_mul(qm31_of(0), x) == qm31_of(0),
        qm31_mul(x, qm31_of(1)) == x,
        qm31_mul(qm31_of(1), x) == x,
        qm31_add(qm31_of(0), x) == x,
{
    lemma_m31_units(x.0);
    lemma_m31_units(x.1);
    lemma_m31_units(x.2);
    lemma_m31_units(x.3);
    lemma_m31_units(0);
    lemma_m31_units(1);
    lemma_m31_units(2);
}

proof fn lemma_total_two(cs: Seq<(OpKind, InteractionClaim)>)
    requires
        cs.len() == 2,
    ensures
        total_sum(cs) == qm31_add(qm31_add(qm31_of(0), cs[0].1.claimed_sum@), cs[1].1.claimed_sum@),
{
    let one = cs.drop_last();
    assert(one.drop_last().len() == 0);
    assert(one.last() == cs[0]);
    assert(total_sum(one.drop_last()) == qm31_of(0));
    assert(total_sum(one) == qm31_add(qm31_of(0), cs[0].1.claimed_sum@));
}

proof fn lemma_claimed_sum_canonical(c: InteractionClaim)
    ensures
        qm31_canonical(c.claimed_sum@),
{
    c.claimed_sum.a.lemma_view_canonical();
    c.claimed_sum.b.lemma_view_canonical();
    c.claimed_sum.c.lemma_view_canonical();
    c.claimed_sum.d.lemma_view_canonical();
}

/// Two components whose claimed sums are one token emitted (`m / d`) and the
/// same token consumed (`-m / d`) balance: their total, which
/// `LuminairInteractionClaim::is_balanced` tests, is zero.
pub proof fn lemma_emit_consume_balanced(cs: Seq<(OpKind, InteractionClaim)>, m: QM31Model, d: QM31Model)
    requires
        cs.len() == 2,
        cs[0].1.claimed_sum@ == qm31_mul(m, qm31_inv(d)),
        cs[1].1.claimed_sum@ == qm31_mul(qm31_neg(m), qm31_inv(d)),
    ensures
        total_sum(cs) == qm31_of(0),
{
    lemma_total_two(cs);
    lemma_claimed_sum_canonical(cs[0].1);
    lemma_qm31_units(cs[0].1.claimed_sum@);
    lemma_token_cancels(m, d);
}

proof fn lemma_sub_self(a: int)
    requires
        0 <= a < p(),
    ensures
        m31_sub(a, a) == 0,
{
    lemma_shift(p(), 0, 1);
}

proof fn lemma_sub_succ(a: int)
    requires
        0 <= a < p(),
    ensures
        m31_sub(m31_add(a, 1), a) == 1,
{
    vstd::arithmetic::div_mod::lemma_small_mod(1, p() as nat);
    if a + 1 < p() {
        vstd::arithmetic::div_mod::lemma_small_mod((a + 1) as nat, p() as nat);
        lemma_shift(1 + p(), 1, 1);
    } else {
        lemma_shift(p(), 0, 1);
    }
}

/// The transition part shared by the operators' constraints: when the row is
/// not the last of its node (`is_last = 0`), each kept id is equal on both
/// sides and the index advances by one; on the last row nothing is asked.
pub open spec fn transition_holds(is_last: int, ids: Seq<(int, int)>, idx: int, next_idx: int) -> bool {
    is_last == 0 ==> (forall|k: int| 0 <= k < ids.len() ==> (#[trigger] ids[k]).0 == ids[k].1)
        && next_idx == m31_add(idx, 1)
}

/// Every value of the row is canonical.
pub open spec fn row_canonical(m: Seq<int>) -> bool {
    forall|i: int| 0 <= i < m.len() ==> 0 <= #[trigger] m[i] < p()
}

proof fn lemma_transition(is_last: int, a: int, b: int)
    requires
        is_last == 0 || is_last == 1,
        0 <= a < p(),
        0 <= b < p(),
        is_last == 0 ==> a == b,
    ensures
        m31_mul(m31_sub(1, is_last), m31_sub(a, b)) == 0,
{
    lemma_m31_units(a);
    lemma_m31_units(1);
    lemma_sub_self(1);
    lemma_sub_self(a);
    lemma_m31_units(m31_sub(a, b));
}

/// A well-formed exp2 row meets every exp2 constraint: `is_last_idx` is 0 or
/// 1, the reserved remainder is zero, and the transition to the next row
/// holds.
pub proof fn lemma_exp2_valid_row_holds(m: Seq<int>)
    requires
        m.len() == 14,
        row_canonical(m),
        m[3] == 0 || m[3] == 1,
        m[9] == 0,
        transition_holds(m[3], seq![(m[4], m[0]), (m[5], m[1])], m[2], m[6]),
    ensures
        forall|i: int| 0 <= i < 5 ==> #[trigger] exp2_constraints(m)[i] == 0,
{
    let is_last = m[3];
    assert(0 <= m[0] < p() && 0 <= m[1] < p() && 0 <= m[2] < p() && 0 <= m[4] < p());
    assert(0 <= m[5] < p() && 0 <= m[6] < p() && 0 <= m[7] < p() && 0 <= m[8] < p());
    lemma_m31_units(0);
    lemma_m31_units(1);
    lemma_sub_self(1);
    lemma_sub_self(m31_mul(m[8], m[7]));
    if is_last == 0 {
        let ids = seq![(m[4], m[0]), (m[5], m[1])];
        assert(ids[0].0 == ids[0].1);
        assert(ids[1].0 == ids[1].1);
        lemma_sub_succ(m[2]);
    } else {
        lemma_m31_units(m31_sub(m[6], m[2]));
    }
    lemma_transition(is_last, m[4], m[0]);
    lemma_transition(is_last, m[5], m[1]);
    lemma_transition(is_last, m31_sub(m[6], m[2]), 1);
    vstd::arithmetic::div_mod::lemma_small_mod(0, p() as nat);
}

/// The output of a binary operator on canonical operands.
pub open spec fn binary_value(op: BinaryOp, lhs: int, rhs: int) -> int {
    match op {
        BinaryOp::Add => m31_add(lhs, rhs),
        BinaryOp::Mul => m31_mul(lhs, rhs),
    }
}

/// A well-formed add or mul row meets every constraint of its component:
/// `is_last_idx` is 0 or 1, the output is the operator on the operands, and
/// the transition to the next row holds.
pub proof fn lemma_binary_valid_row_holds(op: BinaryOp, m: Seq<int>)
    requires
        m.len() == 15,
        row_canonical(m),
        m[4] == 0 || m[4] == 1,
        m[11] == binary_value(op, m[9], m[10]),
        transition_holds(m[4], seq![(m[5], m[0]), (m[6], m[1]), (m[7], m[2])], m[3], m[8]),
    ensures
        forall|i: int| 0 <= i < 6 ==> #[trigger] binary_constraints(op, m)[i] == 0,
{
    let is_last = m[4];
    assert(0 <= m[0] < p() && 0 <= m[1] < p() && 0 <= m[2] < p() && 0 <= m[3] < p());
    assert(0 <= m[5] < p() && 0 <= m[6] < p() && 0 <= m[7] < p() && 0 <= m[8] < p());
    lemma_m31_units(0);
    lemma_m31_units(1);
    lemma_sub_self(1);
    lemma_sub_self(m[11]);
    if is_last == 0 {
        let ids = seq![(m[5], m[0]), (m[6], m[1]), (m[7], m[2])];
        assert(ids[0].0 == ids[0].1);
        assert(ids[1].0 == ids[1].1);
        assert(ids[2].0 == ids[2].1);
        lemma_sub_succ(m[3]);
    } else {
        lemma_m31_units(m31_sub(m[8], m[3]));
    }
    lemma_transition(is_last, m[5], m[0]);
    lemma_transition(is_last, m[6], m[1]);
    lemma_transition(is_last, m[7], m[2]);
    lemma_transition(is_last, m31_sub(m[8], m[3]), 1);
}

/// Appending padding rows to a table changes no cell of its padded columns,
/// and, while the rows still fit, not its log-size either: the trace stays
/// the same.
pub proof fn lemma_padding_irrelevant(k: OpKind, rows: Seq<Vec<M31>>, padded: Seq<Vec<M31>>, log: nat)
    requires
        rows.len() > 0,
        rows.len() <= padded.len(),
        padded.subrange(0, rows.len() as int) == rows,
        forall|i: int| rows.len() <= i < padded.len() ==> (#[trigger] padded[i])@.len() == n_columns_spec(k),
        forall|i: int, c: int| rows.len() <= i < padded.len() && 0 <= c < n_columns_spec(k)
            ==> (#[trigger] padded[i]@[c])@ == padding_value(k, c),
    ensures
        forall|c: int, r: int| 0 <= c < n_columns_spec(k) && 0 <= r ==> #[trigger] cell(k, padded, c, r) == cell(k, rows, c, r),
        is_padded_log_size(rows.len(), log) && padded.len() <= pow2(log) ==> is_padded_log_size(padded.len(), log),
{
    assert forall|c: int, r: int| 0 <= c < n_columns_spec(k) && 0 <= r implies #[trigger] cell(k, padded, c, r) == cell(k, rows, c, r) by {
        if r < rows.len() {
            assert(padded[r] == padded.subrange(0, rows.len() as int)[r]);
        } else if r < padded.len() {
            assert(padded[r]@[c]@ == padding_value(k, c));
        }
    }
}

/// The padded columns hold every cell of the table: two tables of the same
/// length with the same columns agree in every cell, so changing any one
/// cell changes a column.
pub proof fn lemma_trace_binds_cells(
    k: OpKind,
    rows1: Seq<Vec<M31>>,
    rows2: Seq<Vec<M31>>,
    log: nat,
    trace: Seq<CircleEvaluation>,
)
    requires
        rows_fit(k, rows1),
        rows_fit(k, rows2),
        rows1.len() == rows2.len(),
        rows1.len() <= pow2(log),
        is_trace_of(k, rows1, log, trace),
        is_trace_of(k, rows2, log, trace),
    ensures
        forall|r: int, c: int| 0 <= r < rows1.len() && 0 <= c < n_columns_spec(k) ==> (#[trigger] rows1[r]@[c])@ == rows2[r]@[c]@,
{
    assert forall|r: int, c: int| 0 <= r < rows1.len() && 0 <= c < n_columns_spec(k) implies (#[trigger] rows1[r]@[c])@ == rows2[r]@[c]@ by {
        assert(trace[c].values@[r]@ == cell(k, rows1, c, r));
        assert(trace[c].values@[r]@ == cell(k, rows2, c, r));
    }
}

/// Appending rows of multiplicity zero to an exp2 lookup table changes
/// neither the committed multiplicity column nor, while the rows still fit,
/// the log-size: at any size that holds both, the padded multiplicities agree.
pub proof fn lemma_lookup_padding_irrelevant(
    rows: Seq<Exp2LookupTraceTableRow>,
    padded: Seq<Exp2LookupTraceTableRow>,
    log: nat,
    size: nat,
)
    requires
        rows.len() > 0,
        rows.len() <= padded.len() <= size,
        padded.subrange(0, rows.len() as int) == rows,
        forall|i: int| rows.len() <= i < padded.len() ==> (#[trigger] padded[i]).multiplicity@ == 0,
    ensures
        padded_multiplicities(padded, size) == padded_multiplicities(rows, size),
        is_padded_log_size(rows.len(), log) && padded.len() <= pow2(log) ==> is_padded_log_size(padded.len(), log),
{
    assert forall|i: int| 0 <= i < size implies #[trigger] padded_multiplicities(padded, size)[i]
        == padded_multiplicities(rows, size)[i] by {
        if i < rows.len() {
            assert(padded[i] == padded.subrange(0, rows.len() as int)[i]);
        }
    }
    assert(padded_multiplicities(padded, size) =~= padded_multiplicities(rows, size));
}

/// The padding row meets every constraint of the exp2 component.
pub proof fn lemma_exp2_padding_row_holds()
    ensures
        forall|i: int| 0 <= i < 5 ==> #[trigger] exp2_constraints(padding_seq(OpKind::Exp2))[i] == 0,
{
    let m = padding_seq(OpKind::Exp2);
    assert(m[3] == 1);
    lemma_shift(p(), 0, 1);
    vstd::arithmetic::div_mod::lemma_small_mod((p() - 1) as nat, p() as nat);
    assert(m31_sub(1, 1) == 0);
    assert(m31_mul(1, m31_sub(1, 1)) == 0);
    assert(m31_mul(m[8], m[7]) == 0);
    assert(m31_sub(0, 0) == 0);
    assert(m31_sub(m31_sub(0, 0), 1) == p() - 1);
    assert(m31_mul(0, p() - 1) == 0);
}

/// The main phase has one outcome: two runs on the same tables, from the
/// same transcript, both succeed or both fail with the same error; when they
/// succeed they give the same main claim, the same number of columns, and
/// leave the same transcript.
pub proof fn lemma_main_phase_deterministic(
    tables: Seq<TableTrace>,
    start: Seq<u64>,
    r1: Result<(LuminairClaim, TreeBuilder), TraceError>,
    words1: Seq<u64>,
    r2: Result<(LuminairClaim, TreeBuilder), TraceError>,
    words2: Seq<u64>,
)
    requires
        main_phase_result(tables, start, r1, words1),
        main_phase_result(tables, start, r2, words2),
    ensures
        r1 is Ok <==> r2 is Ok,
        words1 == words2,
        r1 is Err ==> r1 == r2,
        r1 is Ok ==> r1->Ok_0.0 == r2->Ok_0.0 && r1->Ok_0.1.evals@.len() == r2->Ok_0.1.evals@.len(),
{
    if r1 is Ok && r2 is Err {
        let i = choose|i: int| 0 <= i < tables.len() && (#[trigger] tables[i]).rows().len() == 0;
        assert(tables[i].rows().len() > 0);
    }
    if r1 is Err && r2 is Ok {
        let i = choose|i: int| 0 <= i < tables.len() && (#[trigger] tables[i]).rows().len() == 0;
        assert(tables[i].rows().len() > 0);
    }
}

/// Converting a table has one outcome: two results that both meet the
/// contract have the same claim and the same columns.
pub proof fn lemma_trace_evaluation_deterministic(
    k: OpKind,
    rows: Seq<Vec<M31>>,
    r1: Result<(crate::trace::TraceEval, crate::trace::Claim), crate::trace::TraceError>,
    r2: Result<(crate::trace::TraceEval, crate::trace::Claim), crate::trace::TraceError>,
)
    requires
        trace_evaluation_result(k, rows, r1),
        trace_evaluation_result(k, rows, r2),
    ensures
        r1 is Ok <==> r2 is Ok,
        r1 is Err ==> r1 == r2,
        r1 is Ok ==> {
            let (t1, c1) = r1->Ok_0;
            let (t2, c2) = r2->Ok_0;
            &&& c1 == c2
            &&& t1@.len() == t2@.len()
            &&& forall|c: int| 0 <= c < t1@.len() ==> (#[trigger] t1@[c]).log_size == t2@[c].log_size
                && crate::trace::column_view(t1@[c].values@) == crate::trace::column_view(t2@[c].values@)
        },
{
    if let (Ok((t1, c1)), Ok((t2, c2))) = (r1, r2) {
        lemma_padded_log_unique(rows.len(), c1.log_size as nat, c2.log_size as nat);
        assert forall|c: int| 0 <= c < t1@.len() implies (#[trigger] t1@[c]).log_size == t2@[c].log_size
            && crate::trace::column_view(t1@[c].values@) == crate::trace::column_view(t2@[c].values@) by {
            assert(crate::trace::column_view(t1@[c].values@) =~= crate::trace::column_view(t2@[c].values@));
        }
    }
}

} // verus!
