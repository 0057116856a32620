use vstd::prelude::*;

verus! {

/// A typed failure of one update request.
///
/// Every error is terminal for the request that produced it: the applier
/// performs no local retry or recovery, and the caller's transaction
/// boundary is expected to discard any writes made before the failure.
#[derive(Clone, Copy, Debug, PartialEq, Eq, Structural)]
pub enum UpdateTrancheError {
    /// The selector bitmask has a bit set outside the recognized selector
    /// set. Fatal to the whole request: no field is touched.
    UnrecognizedSelectorBits,
    /// The candidate `halt_flags` value has a bit set outside the
    /// recognized halt-flag set, and the halt flags were selected for
    /// update. The stored `halt_flags` value is left unchanged.
    InvalidHaltFlagsBits,
}

} // verus!
