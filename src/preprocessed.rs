//! Identifiers of the preprocessed lookup-table columns and their canonical
//! order, which prover and verifier must share.
use vstd::prelude::*;
use vstd::seq_lib::{to_multiset_build, to_multiset_insert};

verus! {

/// The functions that have a preprocessed lookup table.
#[derive(Clone, Copy, Debug, PartialEq, Eq, Structural)]
pub enum LutFunction {
    Sin,
    Exp2,
}

/// The rank of a function in the canonical order.
pub open spec fn function_tag(f: LutFunction) -> int {
    match f {
        LutFunction::Sin => 0,
        LutFunction::Exp2 => 1,
    }
}

/// One preprocessed column: column 0 of a table holds its inputs, column 1
/// the function's outputs.
#[derive(Clone, Copy, Debug, PartialEq, Eq, Structural)]
pub struct PreProcessedColumnId {
    pub function: LutFunction,
    pub col_index: u32,
}

/// The sort key `(function_tag, col_index)`, as one integer.
pub open spec fn column_key(c: PreProcessedColumnId) -> int {
    function_tag(c.function) * 0x1_0000_0000 + c.col_index
}

/// The columns stand in the canonical order.
pub open spec fn is_canonical(s: Seq<PreProcessedColumnId>) -> bool {
    forall|i: int, j: int| 0 <= i < j < s.len() ==> column_key(#[trigger] s[i]) <= column_key(#[trigger] s[j])
}

fn key(c: &PreProcessedColumnId) -> (r: u64)
    ensures
        r == column_key(*c),
{
    let tag: u64 = match c.function {
        LutFunction::Sin => 0,
        LutFunction::Exp2 => 1,
    };
    tag * 0x1_0000_0000 + c.col_index as u64
}

/// The same columns in the canonical order, sorted by
/// `(function_tag, col_index)`; columns with equal keys keep their order.
pub fn canonical_order(ids: &Vec<PreProcessedColumnId>) -> (r: Vec<PreProcessedColumnId>)
    ensures
        is_canonical(r@),
        r@.to_multiset() == ids@.to_multiset(),
{
    let mut r: Vec<PreProcessedColumnId> = Vec::new();
    let mut i: usize = 0;
    proof {
        assert(ids@.subrange(0, 0) =~= r@);
    }
    while i < ids.len()
        invariant
            i <= ids@.len(),
            is_canonical(r@),
            r@.to_multiset() == ids@.subrange(0, i as int).to_multiset(),
        decreases ids@.len() - i,
    {
        let x = ids[i];
        let kx = key(&x);
        let mut j: usize = 0;
        while j < r.len() && key(&r[j]) <= kx
            invariant
                j <= r@.len(),
                forall|k: int| 0 <= k < j ==> column_key(#[trigger] r@[k]) <= kx,
            decreases r@.len() - j,
        {
            j = j + 1;
        }
        let ghost before = r@;
        r.insert(j, x);
        proof {
            to_multiset_insert(before, j as int, x);
            to_multiset_build(ids@.subrange(0, i as int), x);
            assert(ids@.subrange(0, i + 1) =~= ids@.subrange(0, i as int).push(x));
            assert forall|a: int, b: int| 0 <= a < b < r@.len() implies column_key(#[trigger] r@[a]) <= column_key(#[trigger] r@[b]) by {
                if b < j {
                } else if b == j {
                    assert(r@[a] == before[a]);
                } else if a < j {
                    assert(r@[b] == before[b - 1]);
                    assert(r@[a] == before[a]);
                } else if a == j {
                    assert(r@[b] == before[b - 1]);
                    if j < before.len() {
                        assert(column_key(before[j as int]) > kx);
                        assert(column_key(before[j as int]) <= column_key(before[b - 1]) || b - 1 == j);
                    }
                } else {
                    assert(r@[b] == before[b - 1]);
                    assert(r@[a] == before[a - 1]);
                }
            }
        }
        i = i + 1;
    }
    proof {
        assert(ids@.subrange(0, ids@.len() as int) =~= ids@);
    }
    r
}

/// The two columns of each table: inputs, then outputs.
pub open spec fn lut_columns(luts: Seq<LutFunction>) -> Seq<PreProcessedColumnId>
    decreases luts.len(),
{
    if luts.len() == 0 {
        seq![]
    } else {
        lut_columns(luts.drop_last()) + seq![
            PreProcessedColumnId { function: luts.last(), col_index: 0 },
            PreProcessedColumnId { function: luts.last(), col_index: 1 },
        ]
    }
}

/// The preprocessed columns of the lookup tables that the settings ask for,
/// two per table, in the canonical order.
pub fn lookups_to_preprocessed_column(luts: &Vec<LutFunction>) -> (r: Vec<PreProcessedColumnId>)
    ensures
        is_canonical(r@),
        r@.to_multiset() == lut_columns(luts@).to_multiset(),
{
    let mut cols: Vec<PreProcessedColumnId> = Vec::new();
    let mut i: usize = 0;
    while i < luts.len()
        invariant
            i <= luts@.len(),
            cols@ == lut_columns(luts@.subrange(0, i as int)),
        decreases luts@.len() - i,
    {
        let f = luts[i];
        cols.push(PreProcessedColumnId { function: f, col_index: 0 });
        cols.push(PreProcessedColumnId { function: f, col_index: 1 });
        proof {
            assert(luts@.subrange(0, i + 1).drop_last() =~= luts@.subrange(0, i as int));
            assert(cols@ =~= lut_columns(luts@.subrange(0, i + 1)));
        }
        i = i + 1;
    }
    proof {
        assert(luts@.subrange(0, luts@.len() as int) =~= luts@);
    }
    canonical_order(&cols)
}

} // verus!
