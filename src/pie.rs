//! The proving input: operator tables and execution resources.
use crate::field::M31;
use crate::table::{
    trace_evaluation_result, AddTable, MaxReduceTable, MulTable, OpKind, RecipTable,
    SinLookupTable, SinTable, SumReduceTable,
};
use crate::trace::{Claim, TraceError, TraceEval};
use vstd::prelude::*;

verus! {

/// The claim of one operator's trace, tagged by operator.
#[derive(Clone, Copy, Debug, PartialEq, Eq, Structural)]
pub enum ClaimType {
    Add(Claim),
    Mul(Claim),
    SumReduce(Claim),
    Recip(Claim),
    MaxReduce(Claim),
    Sin(Claim),
    SinLookup(Claim),
}

/// An operator's trace table, kept until proving.
#[derive(Clone, Debug)]
pub enum TableTrace {
    /// Addition operator trace table.
    Add { table: AddTable },
    /// Multiplication operator trace table.
    Mul { table: MulTable },
    /// Sum reduce operator trace table.
    SumReduce { table: SumReduceTable },
    /// Reciprocal operator trace table.
    Recip { table: RecipTable },
    /// Max reduce operator trace table.
    MaxReduce { table: MaxReduceTable },
    /// Sine operator trace table.
    Sin { table: SinTable },
    /// Sine lookup-table multiplicities.
    SinLookup { table: SinLookupTable },
}

impl TableTrace {
    /// The operator of the table.
    pub open spec fn kind(&self) -> OpKind {
        match self {
            TableTrace::Add { .. } => OpKind::Add,
            TableTrace::Mul { .. } => OpKind::Mul,
            TableTrace::SumReduce { .. } => OpKind::SumReduce,
            TableTrace::Recip { .. } => OpKind::Recip,
            TableTrace::MaxReduce { .. } => OpKind::MaxReduce,
            TableTrace::Sin { .. } => OpKind::Sin,
            TableTrace::SinLookup { .. } => OpKind::SinLookup,
        }
    }

    /// The rows of the table.
    pub open spec fn rows(&self) -> Seq<Vec<M31>> {
        match self {
            TableTrace::Add { table } => table.table@,
            TableTrace::Mul { table } => table.table@,
            TableTrace::SumReduce { table } => table.table@,
            TableTrace::Recip { table } => table.table@,
            TableTrace::MaxReduce { table } => table.table@,
            TableTrace::Sin { table } => table.table@,
            TableTrace::SinLookup { table } => table.table@,
        }
    }

    pub open spec fn wf(&self) -> bool {
        match self {
            TableTrace::Add { table } => table.wf(),
            TableTrace::Mul { table } => table.wf(),
            TableTrace::SumReduce { table } => table.wf(),
            TableTrace::Recip { table } => table.wf(),
            TableTrace::MaxReduce { table } => table.wf(),
            TableTrace::Sin { table } => table.wf(),
            TableTrace::SinLookup { table } => table.wf(),
        }
    }

    /// The claim tagged with the table's operator.
    pub open spec fn tag_claim(&self, claim: Claim) -> ClaimType {
        match self {
            TableTrace::Add { .. } => ClaimType::Add(claim),
            TableTrace::Mul { .. } => ClaimType::Mul(claim),
            TableTrace::SumReduce { .. } => ClaimType::SumReduce(claim),
            TableTrace::Recip { .. } => ClaimType::Recip(claim),
            TableTrace::MaxReduce { .. } => ClaimType::MaxReduce(claim),
            TableTrace::Sin { .. } => ClaimType::Sin(claim),
            TableTrace::SinLookup { .. } => ClaimType::SinLookup(claim),
        }
    }

    pub fn from_add(table: AddTable) -> (r: Self)
        ensures
            r == (TableTrace::Add { table }),
    {
        TableTrace::Add { table }
    }

    pub fn from_mul(table: MulTable) -> (r: Self)
        ensures
            r == (TableTrace::Mul { table }),
    {
        TableTrace::Mul { table }
    }

    pub fn from_recip(table: RecipTable) -> (r: Self)
        ensures
            r == (TableTrace::Recip { table }),
    {
        TableTrace::Recip { table }
    }

    pub fn from_sum_reduce(table: SumReduceTable) -> (r: Self)
        ensures
            r == (TableTrace::SumReduce { table }),
    {
        TableTrace::SumReduce { table }
    }

    pub fn from_max_reduce(table: MaxReduceTable) -> (r: Self)
        ensures
            r == (TableTrace::MaxReduce { table }),
    {
        TableTrace::MaxReduce { table }
    }

    pub fn from_sin(table: SinTable) -> (r: Self)
        ensures
            r == (TableTrace::Sin { table }),
    {
        TableTrace::Sin { table }
    }

    pub fn from_sin_lookup(table: SinLookupTable) -> (r: Self)
        ensures
            r == (TableTrace::SinLookup { table }),
    {
        TableTrace::SinLookup { table }
    }

    /// The padded columns of the table and its claim, tagged by operator;
    /// `EmptyTrace` when the table has no row.
    pub fn to_trace(&self) -> (res: Result<(TraceEval, ClaimType), TraceError>)
        requires
            self.wf(),
        ensures
            match res {
                Ok((trace, claim)) => exists|c: Claim| #![auto]
                    claim == self.tag_claim(c)
                        && trace_evaluation_result(self.kind(), self.rows(), Ok((trace, c))),
                Err(e) => trace_evaluation_result(self.kind(), self.rows(), Err(e)),
            },
    {
        let evaluated = match self {
            TableTrace::Add { table } => table.trace_evaluation(),
            TableTrace::Mul { table } => table.trace_evaluation(),
            TableTrace::SumReduce { table } => table.trace_evaluation(),
            TableTrace::Recip { table } => table.trace_evaluation(),
            TableTrace::MaxReduce { table } => table.trace_evaluation(),
            TableTrace::Sin { table } => table.trace_evaluation(),
            TableTrace::SinLookup { table } => table.trace_evaluation(),
        };
        match evaluated {
            Ok((trace, claim)) => {
                let tagged = match self {
                    TableTrace::Add { .. } => ClaimType::Add(claim),
                    TableTrace::Mul { .. } => ClaimType::Mul(claim),
                    TableTrace::SumReduce { .. } => ClaimType::SumReduce(claim),
                    TableTrace::Recip { .. } => ClaimType::Recip(claim),
                    TableTrace::MaxReduce { .. } => ClaimType::MaxReduce(claim),
                    TableTrace::Sin { .. } => ClaimType::Sin(claim),
                    TableTrace::SinLookup { .. } => ClaimType::SinLookup(claim),
                };
                assert(tagged == self.tag_claim(claim));
                Ok((trace, tagged))
            },
            Err(e) => Err(e),
        }
    }
}

/// Counts occurrences of each operation.
#[derive(Clone, Copy, Debug, PartialEq, Eq, Structural)]
pub struct OpCounter {
    pub add: usize,
    pub mul: usize,
    pub sum_reduce: usize,
    pub recip: usize,
    pub max_reduce: usize,
    pub sin: usize,
}

/// Resource usage of the execution.
#[derive(Clone, Copy, Debug, PartialEq, Eq, Structural)]
pub struct ExecutionResources {
    pub op_counter: OpCounter,
    pub max_log_size: u32,
}

/// Operator tables and execution resources of a computational graph.
#[derive(Clone, Debug)]
pub struct LuminairPie {
    pub table_traces: Vec<TableTrace>,
    pub execution_resources: ExecutionResources,
}

/// How many times each row of each lookup table was used.
#[derive(Clone, Debug)]
pub struct LUTMultiplicities {
    pub sin: Vec<u32>,
}

/// The claim of one committed operator trace.
#[derive(Clone, Copy, Debug, PartialEq, Eq, Structural)]
pub struct Trace {
    pub claim: ClaimType,
}

impl Trace {
    pub fn new(claim: ClaimType) -> (r: Self)
        ensures
            r.claim == claim,
    {
        Trace { claim }
    }
}

/// Whether a node input is an initializer, and its node.
#[derive(Clone, Copy, Debug, PartialEq, Eq, Structural)]
pub struct InputInfo {
    pub is_initializer: bool,
    pub id: u32,
}

/// Whether a node output is a final graph output.
#[derive(Clone, Copy, Debug, PartialEq, Eq, Structural, Default)]
pub struct OutputInfo {
    pub is_final_output: bool,
}

/// Inputs, output and consumers of a node.
#[derive(Clone, Debug, PartialEq, Eq, Default)]
pub struct NodeInfo {
    pub inputs: Vec<InputInfo>,
    pub output: OutputInfo,
    pub num_consumers: u32,
    pub id: u32,
}

} // verus!
