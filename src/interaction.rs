//! The interaction phase of proving: LogUp columns and their claims.
use crate::claims::LuminairInteractionClaim;
use crate::exp2_lookup::{lookup_interaction_written, Exp2LookupInteractionClaimGenerator};
use crate::field::M31;
use crate::logup::Exp2LookupElements;
use crate::trace::TreeBuilder;
use vstd::arithmetic::power2::pow2;
use vstd::prelude::*;

verus! {

/// The generators of the components' LogUp columns, kept from the main-trace
/// phase until the interaction elements are drawn.
pub struct LuminairInteractionClaimGenerator {
    /// Generator for the exp2 lookup table's LogUp column.
    pub exp2_lookup: Option<Exp2LookupInteractionClaimGenerator>,
}

/// Writes the LogUp column of every present generator, in the canonical
/// order, and gathers their claims; a component without a generator gets no
/// interaction claim.
pub fn write_interaction_phase(
    gens: LuminairInteractionClaimGenerator,
    tree_builder: &mut TreeBuilder,
    exp2_elements: &Exp2LookupElements,
    exp2_lut: &Vec<Vec<M31>>,
) -> (r: LuminairInteractionClaim)
    requires
        gens.exp2_lookup matches Some(g) ==> {
            &&& g.wf()
            &&& exp2_lut@.len() >= 2
            &&& exp2_lut@[0]@.len() >= pow2(g.log_size_spec())
            &&& exp2_lut@[1]@.len() >= pow2(g.log_size_spec())
        },
    ensures
        r.add is None && r.mul is None && r.recip is None && r.sin is None && r.sin_lookup is None,
        r.sum_reduce is None && r.max_reduce is None && r.sqrt is None && r.exp2 is None,
        match gens.exp2_lookup {
            Some(g) => r.exp2_lookup matches Some(c) && lookup_interaction_written(
                g.log_size_spec(),
                g.multiplicities_spec(),
                exp2_elements.model(),
                exp2_lut@,
                old(tree_builder).evals@,
                final(tree_builder).evals@,
                c.claimed_sum@,
            ),
            None => r.exp2_lookup is None && final(tree_builder).evals@ == old(tree_builder).evals@,
        },
{
    let mut claim = LuminairInteractionClaim::empty();
    match gens.exp2_lookup {
        Some(g) => {
            let c = g.write_interaction_trace(tree_builder, exp2_elements, exp2_lut);
            claim.exp2_lookup = Some(c);
        },
        None => {},
    }
    claim
}

} // verus!
