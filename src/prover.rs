//! The main-trace phase of proving: every operator table in turn becomes
//! trace columns and a claim.
use crate::claims::{LuminairClaim, Transcript};
use crate::pie::LuminairPie;
use crate::pie::TableTrace;
use crate::table::{is_trace_of, n_columns_spec, OpKind};
use crate::trace::{is_padded_log_size, CircleEvaluation, Claim, TraceError, TreeBuilder};
use vstd::arithmetic::power2::lemma_pow2_strictly_increases;
use vstd::prelude::*;

verus! {

/// The log-size a table of `n` rows is padded to.
pub open spec fn padded_log(n: nat) -> nat {
    choose|l: nat| is_padded_log_size(n, l)
}

/// At most one log-size is the padded one.
pub proof fn lemma_padded_log_unique(n: nat, l1: nat, l2: nat)
    requires
        is_padded_log_size(n, l1),
        is_padded_log_size(n, l2),
    ensures
        l1 == l2,
{
    if l1 < l2 {
        if l1 < (l2 - 1) as nat {
            lemma_pow2_strictly_increases(l1, (l2 - 1) as nat);
        }
    } else if l2 < l1 {
        if l2 < (l1 - 1) as nat {
            lemma_pow2_strictly_increases(l2, (l1 - 1) as nat);
        }
    }
}

proof fn lemma_padded_log_is(n: nat, l: nat)
    requires
        is_padded_log_size(n, l),
    ensures
        padded_log(n) == l,
{
    let c = padded_log(n);
    assert(is_padded_log_size(n, c));
    lemma_padded_log_unique(n, l, c);
}

/// The main claim with the claim of operator `k` set to `c`.
pub open spec fn set_claim(mc: LuminairClaim, k: OpKind, c: Claim) -> LuminairClaim {
    match k {
        OpKind::Add => LuminairClaim { add: Some(c), ..mc },
        OpKind::Mul => LuminairClaim { mul: Some(c), ..mc },
        OpKind::Recip => LuminairClaim { recip: Some(c), ..mc },
        OpKind::Sqrt => LuminairClaim { sqrt: Some(c), ..mc },
        OpKind::Sin => LuminairClaim { sin: Some(c), ..mc },
        OpKind::SinLookup => LuminairClaim { sin_lookup: Some(c), ..mc },
        OpKind::SumReduce => LuminairClaim { sum_reduce: Some(c), ..mc },
        OpKind::MaxReduce => LuminairClaim { max_reduce: Some(c), ..mc },
        OpKind::Exp2 => LuminairClaim { exp2: Some(c), ..mc },
        OpKind::Exp2Lookup => LuminairClaim { exp2_lookup: Some(c), ..mc },
    }
}

/// The main claim with no component.
pub open spec fn empty_claim() -> LuminairClaim {
    LuminairClaim {
        add: None,
        mul: None,
        recip: None,
        sin: None,
        sin_lookup: None,
        sum_reduce: None,
        max_reduce: None,
        sqrt: None,
        exp2: None,
        exp2_lookup: None,
    }
}

/// The main claim after the tables in order: each sets its operator's claim
/// to its padded log-size, a later table of an operator replacing an earlier.
pub open spec fn main_claim_of(tables: Seq<TableTrace>) -> LuminairClaim
    decreases tables.len(),
{
    if tables.len() == 0 {
        empty_claim()
    } else {
        let t = tables.last();
        set_claim(
            main_claim_of(tables.drop_last()),
            t.kind(),
            Claim { log_size: padded_log(t.rows().len()) as u32 },
        )
    }
}

/// Where the columns of table `i` start in the main trace.
pub open spec fn segment_start(tables: Seq<TableTrace>, i: int) -> nat
    decreases i,
{
    if i <= 0 {
        0
    } else {
        segment_start(tables, i - 1) + n_columns_spec(tables[i - 1].kind())
    }
}

fn set_claim_exec(mc: &mut LuminairClaim, k: OpKind, c: Claim)
    ensures
        *final(mc) == set_claim(*old(mc), k, c),
{
    match k {
        OpKind::Add => mc.add = Some(c),
        OpKind::Mul => mc.mul = Some(c),
        OpKind::Recip => mc.recip = Some(c),
        OpKind::Sqrt => mc.sqrt = Some(c),
        OpKind::Sin => mc.sin = Some(c),
        OpKind::SinLookup => mc.sin_lookup = Some(c),
        OpKind::SumReduce => mc.sum_reduce = Some(c),
        OpKind::MaxReduce => mc.max_reduce = Some(c),
        OpKind::Exp2 => mc.exp2 = Some(c),
        OpKind::Exp2Lookup => mc.exp2_lookup = Some(c),
    }
}

fn kind_of(t: &TableTrace) -> (r: OpKind)
    ensures
        r == t.kind(),
{
    match t {
        TableTrace::Add { .. } => OpKind::Add,
        TableTrace::Mul { .. } => OpKind::Mul,
        TableTrace::SumReduce { .. } => OpKind::SumReduce,
        TableTrace::Recip { .. } => OpKind::Recip,
        TableTrace::MaxReduce { .. } => OpKind::MaxReduce,
        TableTrace::Sin { .. } => OpKind::Sin,
        TableTrace::SinLookup { .. } => OpKind::SinLookup,
    }
}

/// Turns every table, in the order given, into its padded columns, gathered
/// one table after another, and sets the main claim of its operator.
/// Fails with `EmptyTrace` exactly when some table has no row.
#[verifier::rlimit(30)]
pub fn write_main_trace(tables: &Vec<TableTrace>) -> (res: Result<(LuminairClaim, TreeBuilder), TraceError>)
    requires
        forall|i: int| 0 <= i < tables@.len() ==> (#[trigger] tables@[i]).wf(),
    ensures
        match res {
            Ok((claim, tree)) => {
                &&& forall|i: int| 0 <= i < tables@.len() ==> (#[trigger] tables@[i]).rows().len() > 0
                &&& claim == main_claim_of(tables@)
                &&& tree.evals@.len() == segment_start(tables@, tables@.len() as int)
                &&& forall|i: int| 0 <= i < tables@.len() ==> is_trace_of(
                    (#[trigger] tables@[i]).kind(),
                    tables@[i].rows(),
                    padded_log(tables@[i].rows().len()),
                    tree.evals@.subrange(
                        segment_start(tables@, i) as int,
                        segment_start(tables@, i + 1) as int,
                    ),
                )
            },
            Err(e) => e == TraceError::EmptyTrace && exists|i: int| 0 <= i < tables@.len() && (#[trigger] tables@[i]).rows().len() == 0,
        },
{
    let mut claim = LuminairClaim::empty();
    assert(claim == empty_claim());
    let mut tree = TreeBuilder::new();
    let mut i: usize = 0;
    while i < tables.len()
        invariant
            i <= tables@.len(),
            forall|j: int| 0 <= j < tables@.len() ==> (#[trigger] tables@[j]).wf(),
            forall|j: int| 0 <= j < i ==> (#[trigger] tables@[j]).rows().len() > 0,
            claim == main_claim_of(tables@.subrange(0, i as int)),
            tree.evals@.len() == segment_start(tables@, i as int),
            forall|j: int| 0 <= j < i ==> is_trace_of(
                (#[trigger] tables@[j]).kind(),
                tables@[j].rows(),
                padded_log(tables@[j].rows().len()),
                tree.evals@.subrange(segment_start(tables@, j) as int, segment_start(tables@, j + 1) as int),
            ),
        decreases tables@.len() - i,
    {
        let t = &tables[i];
        let k = kind_of(t);
        match t.to_trace() {
            Ok((trace, tagged)) => {
                let c = match tagged {
                    crate::pie::ClaimType::Add(c) => c,
                    crate::pie::ClaimType::Mul(c) => c,
                    crate::pie::ClaimType::SumReduce(c) => c,
                    crate::pie::ClaimType::Recip(c) => c,
                    crate::pie::ClaimType::MaxReduce(c) => c,
                    crate::pie::ClaimType::Sin(c) => c,
                    crate::pie::ClaimType::SinLookup(c) => c,
                };
                proof {
                    let w = choose|w: Claim| #![auto] tagged == t.tag_claim(w)
                        && crate::table::trace_evaluation_result(t.kind(), t.rows(), Ok((trace, w)));
                    assert(w == c);
                    lemma_padded_log_is(t.rows().len(), c.log_size as nat);
                }
                let ghost before = tree.evals@;
                tree.extend_evals(trace);
                set_claim_exec(&mut claim, k, c);
                proof {
                    assert(tables@.subrange(0, i + 1).drop_last() =~= tables@.subrange(0, i as int));
                    assert(tables@.subrange(0, i + 1).last() == tables@[i as int]);
                    lemma_segments_extend(tables@, i as int, before, trace@, tree.evals@);
                }
            },
            Err(e) => {
                return Err(e);
            },
        }
        i = i + 1;
    }
    proof {
        assert(tables@.subrange(0, tables@.len() as int) =~= tables@);
    }
    Ok((claim, tree))
}

/// Log-size of the domain the twiddles are computed for: the largest trace,
/// blown up, with two more for the constraint evaluation domain.
pub fn twiddle_log_size(max_log_size: u32, log_blowup_factor: u32) -> (r: u32)
    requires
        max_log_size + log_blowup_factor + 2 <= u32::MAX,
    ensures
        r == max_log_size + log_blowup_factor + 2,
{
    max_log_size + log_blowup_factor + 2
}

/// What the main phase gives for `tables` from a transcript `start`: when
/// every table has a row, the main claim, the columns of each table in turn,
/// and the transcript extended by the claim's log-sizes; otherwise
/// `EmptyTrace`, with the transcript unchanged.
pub open spec fn main_phase_result(
    tables: Seq<TableTrace>,
    start: Seq<u64>,
    res: Result<(LuminairClaim, TreeBuilder), TraceError>,
    words: Seq<u64>,
) -> bool {
    match res {
        Ok((claim, tree)) => {
            &&& forall|i: int| 0 <= i < tables.len() ==> (#[trigger] tables[i]).rows().len() > 0
            &&& claim == main_claim_of(tables)
            &&& tree.evals@.len() == segment_start(tables, tables.len() as int)
            &&& forall|i: int| 0 <= i < tables.len() ==> is_trace_of(
                (#[trigger] tables[i]).kind(),
                tables[i].rows(),
                padded_log(tables[i].rows().len()),
                tree.evals@.subrange(segment_start(tables, i) as int, segment_start(tables, i + 1) as int),
            )
            &&& words == start + claim.present().map_values(|c: (OpKind, Claim)| c.1.log_size as u64)
        },
        Err(e) => e == TraceError::EmptyTrace && words == start && exists|i: int|
            0 <= i < tables.len() && (#[trigger] tables[i]).rows().len() == 0,
    }
}

/// The main-trace phase: converts every table of the input in order, then
/// mixes the resulting main claim into the transcript, so that the trace
/// dimensions are bound before any interaction element is drawn. Fails with
/// `EmptyTrace` exactly when some table has no row, leaving the transcript
/// as it was.
pub fn prove_main_phase(pie: &LuminairPie, channel: &mut Transcript) -> (res: Result<
    (LuminairClaim, TreeBuilder),
    TraceError,
>)
    requires
        forall|i: int| 0 <= i < pie.table_traces@.len() ==> (#[trigger] pie.table_traces@[i]).wf(),
    ensures
        main_phase_result(pie.table_traces@, old(channel).words@, res, final(channel).words@),
{
    match write_main_trace(&pie.table_traces) {
        Ok((claim, tree)) => {
            claim.mix_into(channel);
            Ok((claim, tree))
        },
        Err(e) => Err(e),
    }
}

proof fn lemma_prefix_subrange(before: Seq<CircleEvaluation>, seg: Seq<CircleEvaluation>, a: int, b: int)
    requires
        0 <= a <= b <= before.len(),
    ensures
        (before + seg).subrange(a, b) == before.subrange(a, b),
{
    assert((before + seg).subrange(a, b) =~= before.subrange(a, b));
}

proof fn lemma_suffix_subrange(before: Seq<CircleEvaluation>, seg: Seq<CircleEvaluation>)
    ensures
        (before + seg).subrange(before.len() as int, (before.len() + seg.len()) as int) == seg,
{
    assert((before + seg).subrange(before.len() as int, (before.len() + seg.len()) as int) =~= seg);
}

proof fn lemma_segments_extend(
    tables: Seq<TableTrace>,
    i: int,
    before: Seq<CircleEvaluation>,
    seg: Seq<CircleEvaluation>,
    after: Seq<CircleEvaluation>,
)
    requires
        0 <= i < tables.len(),
        after == before + seg,
        before.len() == segment_start(tables, i),
        seg.len() == n_columns_spec(tables[i].kind()),
        is_trace_of(tables[i].kind(), tables[i].rows(), padded_log(tables[i].rows().len()), seg),
        forall|j: int| 0 <= j < i ==> is_trace_of(
            (#[trigger] tables[j]).kind(),
            tables[j].rows(),
            padded_log(tables[j].rows().len()),
            before.subrange(segment_start(tables, j) as int, segment_start(tables, j + 1) as int),
        ),
    ensures
        after.len() == segment_start(tables, i + 1),
        forall|j: int| 0 <= j < i + 1 ==> is_trace_of(
            (#[trigger] tables[j]).kind(),
            tables[j].rows(),
            padded_log(tables[j].rows().len()),
            after.subrange(segment_start(tables, j) as int, segment_start(tables, j + 1) as int),
        ),
{
    assert forall|j: int| 0 <= j < i + 1 implies is_trace_of(
        (#[trigger] tables[j]).kind(),
        tables[j].rows(),
        padded_log(tables[j].rows().len()),
        after.subrange(segment_start(tables, j) as int, segment_start(tables, j + 1) as int),
    ) by {
        if j < i {
            lemma_segment_start_mono(tables, j + 1, i);
            lemma_prefix_subrange(before, seg, segment_start(tables, j) as int, segment_start(tables, j + 1) as int);
        } else {
            lemma_suffix_subrange(before, seg);
        }
    }
}

proof fn lemma_segment_start_mono(tables: Seq<TableTrace>, a: int, b: int)
    requires
        0 <= a <= b,
    ensures
        segment_start(tables, a) <= segment_start(tables, b),
    decreases b - a,
{
    if a < b {
        lemma_segment_start_mono(tables, a, b - 1);
    }
}

} // verus!
