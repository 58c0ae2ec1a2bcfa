//! The layout of columns that the circuit is configured with.

use vstd::prelude::*;

verus! {

/// Advice columns in the first phase.
pub const NUM_ADVICE: usize = 1;

/// Advice columns set aside for lookups, in the first phase.
pub const NUM_ADVICE_LOOKUP: usize = 0;

/// Fixed columns that hold constants.
pub const NUM_FIXED: usize = 1;

/// The range table holds the values `0 .. 2^LOOKUP_BITS`.
pub const LOOKUP_BITS: usize = 2;

/// Name of the one context the circuit assigns its cells in.
pub open spec fn context_name() -> Seq<char> {
    "default"@
}

/// Shape of a range-checked gate: how many columns of each kind it has in each
/// phase, how wide its lookup table is, and the name of its context.
pub struct GateLayout {
    /// Advice columns, one entry per phase.
    pub num_advice: Vec<usize>,
    /// Lookup advice columns, one entry per phase.
    pub num_lookup_advice: Vec<usize>,
    /// Fixed columns.
    pub num_fixed: usize,
    /// Bits of the lookup table.
    pub lookup_bits: usize,
    /// Name of the context that the columns belong to.
    pub context_id: String,
}

/// A [`GateLayout`] as mathematical values.
pub ghost struct GateLayoutView {
    pub num_advice: Seq<usize>,
    pub num_lookup_advice: Seq<usize>,
    pub num_fixed: usize,
    pub lookup_bits: usize,
    pub context_id: Seq<char>,
}

impl View for GateLayout {
    type V = GateLayoutView;

    open spec fn view(&self) -> GateLayoutView {
        GateLayoutView {
            num_advice: self.num_advice@,
            num_lookup_advice: self.num_lookup_advice@,
            num_fixed: self.num_fixed,
            lookup_bits: self.lookup_bits,
            context_id: self.context_id@,
        }
    }
}

/// The layout of the circuit: a single phase with one advice column, no
/// separate lookup column, one fixed column and a two-bit range table.
pub open spec fn circuit_layout() -> GateLayoutView {
    GateLayoutView {
        num_advice: seq![NUM_ADVICE],
        num_lookup_advice: seq![NUM_ADVICE_LOOKUP],
        num_fixed: NUM_FIXED,
        lookup_bits: LOOKUP_BITS,
        context_id: context_name(),
    }
}

} // verus!
