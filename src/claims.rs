//! The claims of all components, in the canonical component order, and what
//! they put into the Fiat-Shamir transcript.
use crate::exp2_lookup::coord;
use crate::field::{qm31_add, qm31_of, QM31Model, QM31};
use crate::table::{n_columns, n_columns_spec, OpKind};
use crate::trace::{Claim, InteractionClaim};
use vstd::prelude::*;

verus! {

/// Number of interaction columns of a component: one extension-field LogUp
/// column, as its four coordinates.
pub const N_INTERACTION_COLUMNS: usize = 4;

/// The words mixed into the Fiat-Shamir channel, in order.
#[derive(Clone, Debug)]
pub struct Transcript {
    pub words: Vec<u64>,
}

impl Transcript {
    pub fn new() -> (r: Self)
        ensures
            r.words@.len() == 0,
    {
        Transcript { words: Vec::new() }
    }

    /// Mixes one word.
    pub fn mix_u64(&mut self, w: u64)
        ensures
            final(self).words@ == old(self).words@.push(w),
    {
        self.words.push(w);
    }
}

/// The present entry of an optional component, tagged by operator.
pub open spec fn opt_entry<T>(k: OpKind, o: Option<T>) -> Seq<(OpKind, T)> {
    match o {
        Some(c) => seq![(k, c)],
        None => seq![],
    }
}

fn push_entry<T>(v: &mut Vec<(OpKind, T)>, k: OpKind, o: Option<T>)
    ensures
        final(v)@ == old(v)@ + opt_entry(k, o),
{
    match o {
        Some(c) => {
            v.push((k, c));
            assert(final(v)@ =~= old(v)@ + opt_entry(k, Some(c)));
        },
        None => {
            assert(v@ =~= old(v)@ + opt_entry(k, None::<T>));
        },
    }
}

/// `n` copies of `v`.
pub open spec fn repeat(v: u32, n: nat) -> Seq<u32> {
    Seq::new(n, |i: int| v)
}

/// The log-sizes of the main columns of the listed components, in order.
pub open spec fn main_log_sizes(cs: Seq<(OpKind, Claim)>) -> Seq<u32>
    decreases cs.len(),
{
    if cs.len() == 0 {
        seq![]
    } else {
        main_log_sizes(cs.drop_last()) + repeat(cs.last().1.log_size, n_columns_spec(cs.last().0))
    }
}

/// The log-sizes of the interaction columns of the listed components, in order.
pub open spec fn interaction_log_sizes(cs: Seq<(OpKind, Claim)>) -> Seq<u32>
    decreases cs.len(),
{
    if cs.len() == 0 {
        seq![]
    } else {
        interaction_log_sizes(cs.drop_last()) + repeat(cs.last().1.log_size, N_INTERACTION_COLUMNS as nat)
    }
}

/// The claims of the components' main traces, one per operator present.
#[derive(Clone, Copy, Debug, PartialEq, Eq, Structural)]
pub struct LuminairClaim {
    pub add: Option<Claim>,
    pub mul: Option<Claim>,
    pub recip: Option<Claim>,
    pub sin: Option<Claim>,
    pub sin_lookup: Option<Claim>,
    pub sum_reduce: Option<Claim>,
    pub max_reduce: Option<Claim>,
    pub sqrt: Option<Claim>,
    pub exp2: Option<Claim>,
    pub exp2_lookup: Option<Claim>,
}

impl LuminairClaim {
    /// A claim with no component.
    pub fn empty() -> (r: Self)
        ensures
            r.add is None && r.mul is None && r.recip is None && r.sin is None && r.sin_lookup is None,
            r.sum_reduce is None && r.max_reduce is None && r.sqrt is None && r.exp2 is None,
            r.exp2_lookup is None,
    {
        LuminairClaim {
            add: None,
            mul: None,
            recip: None,
            sin: None,
            sin_lookup: None,
            sum_reduce: None,
            max_reduce: None,
            sqrt: None,
            exp2: None,
            exp2_lookup: None,
        }
    }

    /// The present claims in the canonical component order.
    pub open spec fn present(&self) -> Seq<(OpKind, Claim)> {
        opt_entry(OpKind::Add, self.add) + opt_entry(OpKind::Mul, self.mul) + opt_entry(
            OpKind::Recip,
            self.recip,
        ) + opt_entry(OpKind::Sin, self.sin) + opt_entry(OpKind::SinLookup, self.sin_lookup)
            + opt_entry(OpKind::SumReduce, self.sum_reduce) + opt_entry(
            OpKind::MaxReduce,
            self.max_reduce,
        ) + opt_entry(OpKind::Sqrt, self.sqrt) + opt_entry(OpKind::Exp2, self.exp2) + opt_entry(
            OpKind::Exp2Lookup,
            self.exp2_lookup,
        )
    }

    /// The present claims in the canonical component order.
    pub fn present_claims(&self) -> (r: Vec<(OpKind, Claim)>)
        ensures
            r@ == self.present(),
    {
        let mut v: Vec<(OpKind, Claim)> = Vec::new();
        push_entry(&mut v, OpKind::Add, self.add);
        push_entry(&mut v, OpKind::Mul, self.mul);
        push_entry(&mut v, OpKind::Recip, self.recip);
        push_entry(&mut v, OpKind::Sin, self.sin);
        push_entry(&mut v, OpKind::SinLookup, self.sin_lookup);
        push_entry(&mut v, OpKind::SumReduce, self.sum_reduce);
        push_entry(&mut v, OpKind::MaxReduce, self.max_reduce);
        push_entry(&mut v, OpKind::Sqrt, self.sqrt);
        push_entry(&mut v, OpKind::Exp2, self.exp2);
        push_entry(&mut v, OpKind::Exp2Lookup, self.exp2_lookup);
        assert(v@ =~= self.present());
        v
    }

    /// Mixes the log-size of each present component, in the canonical order,
    /// so that the trace dimensions are bound into the proof.
    pub fn mix_into(&self, channel: &mut Transcript)
        ensures
            final(channel).words@ == old(channel).words@ + self.present().map_values(
                |c: (OpKind, Claim)| c.1.log_size as u64,
            ),
    {
        let cs = self.present_claims();
        let ghost start = channel.words@;
        let mut i: usize = 0;
        while i < cs.len()
            invariant
                i <= cs@.len(),
                cs@ == self.present(),
                channel.words@ == start + cs@.subrange(0, i as int).map_values(
                    |c: (OpKind, Claim)| c.1.log_size as u64,
                ),
            decreases cs@.len() - i,
        {
            channel.mix_u64(cs[i].1.log_size as u64);
            proof {
                assert(cs@.subrange(0, i + 1).map_values(|c: (OpKind, Claim)| c.1.log_size as u64)
                    =~= cs@.subrange(0, i as int).map_values(|c: (OpKind, Claim)| c.1.log_size as u64).push(
                    cs@[i as int].1.log_size as u64,
                ));
            }
            i = i + 1;
        }
        proof {
            assert(cs@.subrange(0, cs@.len() as int) =~= cs@);
        }
    }

    /// The log-size of every committed column, per tree: the preprocessed
    /// tree (none here), the main trace, and the interaction trace, each
    /// listing the present components in the canonical order.
    pub fn log_sizes(&self) -> (r: Vec<Vec<u32>>)
        ensures
            r@.len() == 3,
            r@[0]@ == Seq::<u32>::empty(),
            r@[1]@ == main_log_sizes(self.present()),
            r@[2]@ == interaction_log_sizes(self.present()),
    {
        let cs = self.present_claims();
        let mut main: Vec<u32> = Vec::new();
        let mut interaction: Vec<u32> = Vec::new();
        let mut i: usize = 0;
        while i < cs.len()
            invariant
                i <= cs@.len(),
                cs@ == self.present(),
                main@ == main_log_sizes(cs@.subrange(0, i as int)),
                interaction@ == interaction_log_sizes(cs@.subrange(0, i as int)),
            decreases cs@.len() - i,
        {
            let (k, c) = cs[i];
            let ghost main0 = main@;
            let ghost inter0 = interaction@;
            let n = n_columns(k);
            let mut j: usize = 0;
            while j < n
                invariant
                    j <= n,
                    main@ == main0 + repeat(c.log_size, j as nat),
                decreases n - j,
            {
                main.push(c.log_size);
                assert(main@ =~= main0 + repeat(c.log_size, (j + 1) as nat));
                j = j + 1;
            }
            let mut j: usize = 0;
            while j < N_INTERACTION_COLUMNS
                invariant
                    j <= N_INTERACTION_COLUMNS,
                    interaction@ == inter0 + repeat(c.log_size, j as nat),
                decreases N_INTERACTION_COLUMNS - j,
            {
                interaction.push(c.log_size);
                assert(interaction@ =~= inter0 + repeat(c.log_size, (j + 1) as nat));
                j = j + 1;
            }
            proof {
                assert(cs@.subrange(0, i + 1).drop_last() =~= cs@.subrange(0, i as int));
            }
            i = i + 1;
        }
        proof {
            assert(cs@.subrange(0, cs@.len() as int) =~= cs@);
        }
        let mut r: Vec<Vec<u32>> = Vec::new();
        r.push(Vec::new());
        r.push(main);
        r.push(interaction);
        r
    }
}

/// The four words of an extension-field element: its coordinates.
pub open spec fn qm31_words(q: QM31Model) -> Seq<u64> {
    Seq::new(4, |j: int| coord(q, j) as u64)
}

/// The words of the listed interaction claims, in order.
pub open spec fn interaction_words(cs: Seq<(OpKind, InteractionClaim)>) -> Seq<u64>
    decreases cs.len(),
{
    if cs.len() == 0 {
        seq![]
    } else {
        interaction_words(cs.drop_last()) + qm31_words(cs.last().1.claimed_sum@)
    }
}

/// The sum of the listed claimed sums, added in order.
pub open spec fn total_sum(cs: Seq<(OpKind, InteractionClaim)>) -> QM31Model
    decreases cs.len(),
{
    if cs.len() == 0 {
        qm31_of(0)
    } else {
        qm31_add(total_sum(cs.drop_last()), cs.last().1.claimed_sum@)
    }
}

/// The LogUp sums of the components' interaction traces.
#[derive(Clone, Copy, Debug, PartialEq, Eq, Structural)]
pub struct LuminairInteractionClaim {
    pub add: Option<InteractionClaim>,
    pub mul: Option<InteractionClaim>,
    pub recip: Option<InteractionClaim>,
    pub sin: Option<InteractionClaim>,
    pub sin_lookup: Option<InteractionClaim>,
    pub sum_reduce: Option<InteractionClaim>,
    pub max_reduce: Option<InteractionClaim>,
    pub sqrt: Option<InteractionClaim>,
    pub exp2: Option<InteractionClaim>,
    pub exp2_lookup: Option<InteractionClaim>,
}

impl LuminairInteractionClaim {
    /// An interaction claim with no component.
    pub fn empty() -> (r: Self)
        ensures
            r.add is None && r.mul is None && r.recip is None && r.sin is None && r.sin_lookup is None,
            r.sum_reduce is None && r.max_reduce is None && r.sqrt is None && r.exp2 is None,
            r.exp2_lookup is None,
    {
        LuminairInteractionClaim {
            add: None,
            mul: None,
            recip: None,
            sin: None,
            sin_lookup: None,
            sum_reduce: None,
            max_reduce: None,
            sqrt: None,
            exp2: None,
            exp2_lookup: None,
        }
    }

    /// The present interaction claims in the canonical component order.
    pub open spec fn present(&self) -> Seq<(OpKind, InteractionClaim)> {
        opt_entry(OpKind::Add, self.add) + opt_entry(OpKind::Mul, self.mul) + opt_entry(
            OpKind::Recip,
            self.recip,
        ) + opt_entry(OpKind::Sin, self.sin) + opt_entry(OpKind::SinLookup, self.sin_lookup)
            + opt_entry(OpKind::SumReduce, self.sum_reduce) + opt_entry(
            OpKind::MaxReduce,
            self.max_reduce,
        ) + opt_entry(OpKind::Sqrt, self.sqrt) + opt_entry(OpKind::Exp2, self.exp2) + opt_entry(
            OpKind::Exp2Lookup,
            self.exp2_lookup,
        )
    }

    /// The present interaction claims in the canonical component order.
    pub fn present_claims(&self) -> (r: Vec<(OpKind, InteractionClaim)>)
        ensures
            r@ == self.present(),
    {
        let mut v: Vec<(OpKind, InteractionClaim)> = Vec::new();
        push_entry(&mut v, OpKind::Add, self.add);
        push_entry(&mut v, OpKind::Mul, self.mul);
        push_entry(&mut v, OpKind::Recip, self.recip);
        push_entry(&mut v, OpKind::Sin, self.sin);
        push_entry(&mut v, OpKind::SinLookup, self.sin_lookup);
        push_entry(&mut v, OpKind::SumReduce, self.sum_reduce);
        push_entry(&mut v, OpKind::MaxReduce, self.max_reduce);
        push_entry(&mut v, OpKind::Sqrt, self.sqrt);
        push_entry(&mut v, OpKind::Exp2, self.exp2);
        push_entry(&mut v, OpKind::Exp2Lookup, self.exp2_lookup);
        assert(v@ =~= self.present());
        v
    }

    /// Mixes the claimed sum of each present component, in the canonical
    /// order, as its four coordinates.
    pub fn mix_into(&self, channel: &mut Transcript)
        ensures
            final(channel).words@ == old(channel).words@ + interaction_words(self.present()),
    {
        let cs = self.present_claims();
        let ghost start = channel.words@;
        let mut i: usize = 0;
        while i < cs.len()
            invariant
                i <= cs@.len(),
                cs@ == self.present(),
                channel.words@ == start + interaction_words(cs@.subrange(0, i as int)),
            decreases cs@.len() - i,
        {
            let f = cs[i].1.claimed_sum;
            let ws: [u32; 4] = [f.a.value(), f.b.value(), f.c.value(), f.d.value()];
            let ghost mid = channel.words@;
            let mut j: usize = 0;
            while j < 4
                invariant
                    j <= 4,
                    forall|k: int| 0 <= k < 4 ==> #[trigger] ws@[k] as int == coord(f@, k),
                    channel.words@ == mid + qm31_words(f@).subrange(0, j as int),
                decreases 4 - j,
            {
                channel.mix_u64(ws[j] as u64);
                assert(qm31_words(f@).subrange(0, j + 1) =~= qm31_words(f@).subrange(0, j as int).push(ws@[j as int] as u64));
                j = j + 1;
            }
            proof {
                assert(qm31_words(f@).subrange(0, 4) =~= qm31_words(f@));
                assert(cs@.subrange(0, i + 1).drop_last() =~= cs@.subrange(0, i as int));
                assert(channel.words@ =~= start + interaction_words(cs@.subrange(0, i + 1)));
            }
            i = i + 1;
        }
        proof {
            assert(cs@.subrange(0, cs@.len() as int) =~= cs@);
        }
    }

    /// The sum of all present claimed sums, in the canonical order.
    pub fn total(&self) -> (r: QM31)
        ensures
            r@ == total_sum(self.present()),
    {
        let cs = self.present_claims();
        let mut sum = QM31::zero();
        let mut i: usize = 0;
        while i < cs.len()
            invariant
                i <= cs@.len(),
                cs@ == self.present(),
                sum@ == total_sum(cs@.subrange(0, i as int)),
            decreases cs@.len() - i,
        {
            sum = sum.add(cs[i].1.claimed_sum);
            proof {
                assert(cs@.subrange(0, i + 1).drop_last() =~= cs@.subrange(0, i as int));
            }
            i = i + 1;
        }
        proof {
            assert(cs@.subrange(0, cs@.len() as int) =~= cs@);
        }
        sum
    }

    /// Whether the LogUp sums balance: their total is zero.
    pub fn is_balanced(&self) -> (r: bool)
        ensures
            r == (total_sum(self.present()) == qm31_of(0)),
    {
        let t = self.total();
        t.a.value() == 0 && t.b.value() == 0 && t.c.value() == 0 && t.d.value() == 0
    }
}

} // verus!
