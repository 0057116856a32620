//! Selective-field updates for a tranche configuration record.
//!
//! A single authorized actor applies a chosen subset of updates to a
//! configuration record. The subset is declared through a compact selector
//! bitmask; the bitmask is decoded into a closed set of named selectors,
//! rejecting any bit outside the recognized set, and each selected field is
//! then written through its own validated setter. Only the selected fields
//! change; every other field keeps its prior value exactly.

pub mod errors;
pub mod selectors;
pub mod tranche;
pub mod update;
