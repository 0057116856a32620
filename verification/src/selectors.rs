use vstd::prelude::*;

verus! {

/// Selector bit for an update of the halt flags.
pub const SELECTOR_HALT_FLAGS: u16 = 0b001;

/// Selector bit for an update of the reserve fair value's stale-slot
/// threshold.
pub const SELECTOR_RESERVE_FAIR_VALUE_STALE_SLOT_THRESHOLD: u16 = 0b010;

/// Selector bit for an update of the tranche fair value's stale-slot
/// threshold.
pub const SELECTOR_TRANCHE_FAIR_VALUE_STALE_SLOT_THRESHOLD: u16 = 0b100;

/// Every recognized selector bit.
pub const SELECTOR_BITS_ALL: u16 = 0b111;

/// A bitmask decomposes fully into recognized selector bits.
pub open spec fn selector_bits_recognized(bitmask: u16) -> bool {
    bitmask & !SELECTOR_BITS_ALL == 0
}

/// The decoded form of a selector bitmask: one named selector per
/// updatable field, each an independent bit of the raw mask.
#[derive(Clone, Copy, Debug, PartialEq, Eq, Structural)]
pub struct UpdateTrancheConfigFlags {
    pub halt_flags: bool,
    pub reserve_fair_value_stale_slot_threshold: bool,
    pub tranche_fair_value_stale_slot_threshold: bool,
}

/// The selector set denoted by a bitmask: each selector is present exactly
/// when its bit is set.
pub open spec fn decoded_selectors(bitmask: u16) -> UpdateTrancheConfigFlags {
    UpdateTrancheConfigFlags {
        halt_flags: bitmask & SELECTOR_HALT_FLAGS != 0,
        reserve_fair_value_stale_slot_threshold: bitmask
            & SELECTOR_RESERVE_FAIR_VALUE_STALE_SLOT_THRESHOLD != 0,
        tranche_fair_value_stale_slot_threshold: bitmask
            & SELECTOR_TRANCHE_FAIR_VALUE_STALE_SLOT_THRESHOLD != 0,
    }
}

/// The bitmask that encodes a selector set: the union of the bits of the
/// selectors present in the set.
pub open spec fn selector_bits(selectors: UpdateTrancheConfigFlags) -> u16 {
    (if selectors.halt_flags {
        SELECTOR_HALT_FLAGS
    } else {
        0
    }) | (if selectors.reserve_fair_value_stale_slot_threshold {
        SELECTOR_RESERVE_FAIR_VALUE_STALE_SLOT_THRESHOLD
    } else {
        0
    }) | (if selectors.tranche_fair_value_stale_slot_threshold {
        SELECTOR_TRANCHE_FAIR_VALUE_STALE_SLOT_THRESHOLD
    } else {
        0
    })
}

impl UpdateTrancheConfigFlags {
    /// Decodes a raw bitmask into the maximal set of recognized selectors
    /// whose bits are set, or `None` if any bit outside the recognized set
    /// is set.
    pub fn from_bits(bits: u16) -> (decoded: Option<UpdateTrancheConfigFlags>)
        ensures
            selector_bits_recognized(bits) ==> decoded == Some(decoded_selectors(bits)),
            !selector_bits_recognized(bits) ==> decoded == None::<UpdateTrancheConfigFlags>,
    {
        if bits & !SELECTOR_BITS_ALL != 0 {
            None
        } else {
            Some(
                UpdateTrancheConfigFlags {
                    halt_flags: bits & SELECTOR_HALT_FLAGS != 0,
                    reserve_fair_value_stale_slot_threshold: bits
                        & SELECTOR_RESERVE_FAIR_VALUE_STALE_SLOT_THRESHOLD != 0,
                    tranche_fair_value_stale_slot_threshold: bits
                        & SELECTOR_TRANCHE_FAIR_VALUE_STALE_SLOT_THRESHOLD != 0,
                },
            )
        }
    }

    /// Re-encodes the selector set as a raw bitmask.
    pub fn bits(&self) -> (bits: u16)
        ensures
            bits == selector_bits(*self),
    {
        (if self.halt_flags {
            SELECTOR_HALT_FLAGS
        } else {
            0
        }) | (if self.reserve_fair_value_stale_slot_threshold {
            SELECTOR_RESERVE_FAIR_VALUE_STALE_SLOT_THRESHOLD
        } else {
            0
        }) | (if self.tranche_fair_value_stale_slot_threshold {
            SELECTOR_TRANCHE_FAIR_VALUE_STALE_SLOT_THRESHOLD
        } else {
            0
        })
    }
}

/// Law: decoding a bitmask that decomposes fully into recognized selector
/// bits and re-encoding the resulting selector set yields the same bitmask.
pub proof fn lemma_selector_round_trip(bitmask: u16)
    requires
        selector_bits_recognized(bitmask),
    ensures
        selector_bits(decoded_selectors(bitmask)) == bitmask,
{
    assert((if bitmask & 0b001u16 != 0 {
        0b001u16
    } else {
        0u16
    }) | (if bitmask & 0b010u16 != 0 {
        0b010u16
    } else {
        0u16
    }) | (if bitmask & 0b100u16 != 0 {
        0b100u16
    } else {
        0u16
    }) == bitmask) by (bit_vector)
        requires
            bitmask & !0b111u16 == 0,
    ;
}

} // verus!
