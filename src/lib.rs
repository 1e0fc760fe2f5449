//! Trace generation, constraint evaluation and LogUp bookkeeping for the
//! LuminAIR proving core, over the Mersenne-31 field.
//!
//! - `field`: the base field M31, its quartic extension QM31, and inverses.
//! - `trace`: padding sizes, columns, the tree builder, claims.
//! - `table`: operator row schemas and the conversion of a table to columns.
//! - `add`: the element-wise addition trace with broadcasting.
//! - `pie`: the proving input, tagged operator tables.
//! - `logup`: relation elements and the concrete row evaluator.
//! - `binary`, `exp2`: operator constraints.
//! - `exp2_lookup`: the exp2 lookup table's multiplicities and LogUp column.
//! - `claims`: the claims of all components and what they mix into the
//!   transcript.
//! - `prover`, `interaction`: the main-trace and interaction phases.
//! - `preprocessed`: the canonical order of lookup-table columns.
//! - `laws`: properties that relate several of the above.
use vstd::prelude::*;

pub mod field;
pub mod trace;
pub mod table;
pub mod add;
pub mod pie;
pub mod logup;
pub mod binary;
pub mod exp2;
pub mod exp2_lookup;
pub mod claims;
pub mod prover;
pub mod interaction;
pub mod laws;
pub mod preprocessed;

verus! {

/// Fixed-point scale used for tensor values.
pub const DEFAULT_FP_SCALE: u32 = 12;

} // verus!
