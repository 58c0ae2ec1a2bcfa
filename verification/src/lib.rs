//! A circuit skeleton for the linear relation `A * x = b`: the data the circuit
//! carries, the column layout it asks for, the two-pass discipline of its region
//! assignment and the row-usage report it prints.

pub mod circuit;
pub mod layout;
pub mod pass;
pub mod report;
pub mod usage;

pub use circuit::MyCircuit;
pub use layout::{GateLayout, LOOKUP_BITS, NUM_ADVICE, NUM_ADVICE_LOOKUP, NUM_FIXED};
pub use pass::{PassAction, RegionPass};
