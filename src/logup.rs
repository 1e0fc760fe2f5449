//! Relation elements and a row evaluator that reads concrete column values.
use crate::field::{qm31_add, qm31_mul, qm31_of, M31, QM31, QM31Model};
use vstd::prelude::*;

verus! {

/// The random coefficients `alpha0, alpha1, beta` that combine a pair of values
/// into one extension-field element.
#[derive(Clone, Copy, Debug, PartialEq, Eq, Structural)]
pub struct RelationElements {
    pub alpha0: QM31,
    pub alpha1: QM31,
    pub beta: QM31,
}

/// Elements that combine a `(value, node_id)` token.
pub type NodeElements = RelationElements;

/// Elements that combine an `(input, output)` row of the exp2 table.
pub type Exp2LookupElements = RelationElements;

/// `alpha0 * x + alpha1 * y + beta`.
pub open spec fn combine_spec(e: (QM31Model, QM31Model, QM31Model), x: int, y: int) -> QM31Model {
    qm31_add(qm31_add(qm31_mul(e.0, qm31_of(x)), qm31_mul(e.1, qm31_of(y))), e.2)
}

impl RelationElements {
    pub open spec fn model(&self) -> (QM31Model, QM31Model, QM31Model) {
        (self.alpha0@, self.alpha1@, self.beta@)
    }

    /// Combines the pair `(x, y)` into one denominator of the LogUp sum.
    pub fn combine(&self, x: M31, y: M31) -> (r: QM31)
        ensures
            r@ == combine_spec(self.model(), x@, y@),
    {
        self.alpha0.mul(QM31::from_m31(x)).add(self.alpha1.mul(QM31::from_m31(y))).add(self.beta)
    }
}

/// The LogUp relations a term can belong to.
#[derive(Clone, Copy, Debug, PartialEq, Eq, Structural)]
pub enum Relation {
    /// `(value, node_id)` tokens between producers and consumers.
    Node,
    /// `(input, output)` rows of the exp2 lookup table.
    Exp2Lookup,
}

/// A LogUp term: its relation, a multiplicity and the values it is taken on.
#[derive(Clone, Debug)]
pub struct RelationEntry {
    pub relation: Relation,
    pub multiplicity: M31,
    pub values: Vec<M31>,
}

impl View for RelationEntry {
    type V = (Relation, int, Seq<int>);

    open spec fn view(&self) -> (Relation, int, Seq<int>) {
        (self.relation, self.multiplicity@, self.values@.map_values(|v: M31| v@))
    }
}

/// Evaluates constraints on one row of concrete column values: columns are
/// read in schema order, and each constraint and relation term is recorded.
#[derive(Clone, Debug)]
pub struct RowEvaluator {
    pub mask: Vec<M31>,
    pub cursor: usize,
    pub constraints: Vec<M31>,
    pub relations: Vec<RelationEntry>,
    pub finalized: bool,
}

/// What a row evaluator records, as field-element views.
pub struct RowEvaluatorModel {
    pub mask: Seq<int>,
    pub cursor: int,
    pub constraints: Seq<int>,
    pub relations: Seq<(Relation, int, Seq<int>)>,
    pub finalized: bool,
}

impl View for RowEvaluator {
    type V = RowEvaluatorModel;

    open spec fn view(&self) -> RowEvaluatorModel {
        RowEvaluatorModel {
            mask: self.mask@.map_values(|v: M31| v@),
            cursor: self.cursor as int,
            constraints: self.constraints@.map_values(|v: M31| v@),
            relations: self.relations@.map_values(|e: RelationEntry| e@),
            finalized: self.finalized,
        }
    }
}

impl RowEvaluator {
    /// An evaluator over the given row, before any column is read.
    pub fn new(mask: Vec<M31>) -> (r: Self)
        ensures
            r.mask == mask,
            r.cursor == 0,
            r.constraints@.len() == 0,
            r.relations@.len() == 0,
            !r.finalized,
    {
        RowEvaluator {
            mask,
            cursor: 0,
            constraints: Vec::new(),
            relations: Vec::new(),
            finalized: false,
        }
    }

    /// Reads the next column of the row.
    pub fn next_trace_mask(&mut self) -> (r: M31)
        requires
            old(self).cursor < old(self).mask@.len(),
        ensures
            r == old(self).mask@[old(self).cursor as int],
            final(self).cursor == old(self).cursor + 1,
            final(self).mask == old(self).mask,
            final(self).constraints == old(self).constraints,
            final(self).relations == old(self).relations,
            final(self).finalized == old(self).finalized,
    {
        let v = self.mask[self.cursor];
        let len = self.mask.len();
        assert(self.cursor < len);
        self.cursor = self.cursor + 1;
        v
    }

    /// Records a constraint, which holds when its value is zero.
    pub fn add_constraint(&mut self, c: M31)
        ensures
            final(self).constraints@ == old(self).constraints@.push(c),
            final(self).cursor == old(self).cursor,
            final(self).mask == old(self).mask,
            final(self).relations == old(self).relations,
            final(self).finalized == old(self).finalized,
    {
        self.constraints.push(c);
    }

    /// Records a LogUp term.
    pub fn add_to_relation(&mut self, e: RelationEntry)
        ensures
            final(self).relations@ == old(self).relations@.push(e),
            final(self).cursor == old(self).cursor,
            final(self).mask == old(self).mask,
            final(self).constraints == old(self).constraints,
            final(self).finalized == old(self).finalized,
    {
        self.relations.push(e);
    }

    /// Closes the row's LogUp terms.
    pub fn finalize_logup(&mut self)
        ensures
            final(self).finalized,
            final(self).cursor == old(self).cursor,
            final(self).mask == old(self).mask,
            final(self).constraints == old(self).constraints,
            final(self).relations == old(self).relations,
    {
        self.finalized = true;
    }

    /// Whether every recorded constraint is zero.
    pub fn constraints_hold(&self) -> (r: bool)
        ensures
            r == forall|i: int| 0 <= i < self.constraints@.len() ==> #[trigger] self.constraints@[i]@ == 0,
    {
        let mut i: usize = 0;
        while i < self.constraints.len()
            invariant
                i <= self.constraints@.len(),
                forall|j: int| 0 <= j < i ==> #[trigger] self.constraints@[j]@ == 0,
            decreases self.constraints@.len() - i,
        {
            if self.constraints[i].value() != 0 {
                return false;
            }
            i = i + 1;
        }
        true
    }
}

} // verus!
