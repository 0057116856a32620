use vstd::prelude::*;

use crate::errors::UpdateTrancheError;

verus! {

/// Halt flag: deposits into the tranche are suspended.
pub const HALT_FLAG_DEPOSITS: u16 = 0b001;

/// Halt flag: refreshes of the tranche's valuations are suspended.
pub const HALT_FLAG_REFRESHES: u16 = 0b010;

/// Halt flag: redeems from the tranche are suspended.
pub const HALT_FLAG_REDEEMS: u16 = 0b100;

/// Every recognized halt-flag bit.
pub const HALT_FLAGS_ALL: u16 = 0b111;

/// A raw halt-flags value decomposes fully into recognized halt-flag bits.
pub open spec fn halt_flags_recognized(halt_flags: u16) -> bool {
    halt_flags & !HALT_FLAGS_ALL == 0
}

/// Slot bookkeeping for one cached fair value.
#[derive(Clone, Copy, Debug, PartialEq, Eq, Structural)]
pub struct SlotTracking {
    /// Age, in slots, after which the cached valuation counts as stale.
    /// Any unsigned value is acceptable.
    pub stale_slot_threshold: u64,
}

/// One cached fair value's bookkeeping.
#[derive(Clone, Copy, Debug, PartialEq, Eq, Structural)]
pub struct FairValue {
    pub slot_tracking: SlotTracking,
}

/// The updatable sub-record of a tranche configuration.
#[derive(Clone, Copy, Debug, PartialEq, Eq, Structural)]
pub struct TrancheData {
    /// Operational halt conditions, stored raw; only recognized bits may
    /// ever be set.
    pub halt_flags: u16,
    pub reserve_fair_value: FairValue,
    pub tranche_fair_value: FairValue,
}

impl TrancheData {
    /// The stored halt flags hold only recognized bits. Holds before and
    /// after every successful update.
    pub open spec fn wf(&self) -> bool {
        halt_flags_recognized(self.halt_flags)
    }

    /// The raw halt-flags value as stored.
    pub fn get_halt_flags(&self) -> (halt_flags: u16)
        ensures
            halt_flags == self.halt_flags,
    {
        self.halt_flags
    }

    /// Replaces the stored halt flags, after validating that the raw value
    /// decomposes fully into recognized halt-flag bits. On failure the
    /// stored value, and every other field, is unchanged.
    pub fn set_halt_flags(&mut self, halt_flags: u16) -> (result: Result<
        (),
        UpdateTrancheError,
    >)
        ensures
            result matches Ok(()) <==> halt_flags_recognized(halt_flags),
            result matches Err(e) ==> e == UpdateTrancheError::InvalidHaltFlagsBits,
            halt_flags_recognized(halt_flags) ==> final(self).halt_flags == halt_flags,
            !halt_flags_recognized(halt_flags) ==> final(self).halt_flags == old(
                self,
            ).halt_flags,
            final(self).reserve_fair_value == old(self).reserve_fair_value,
            final(self).tranche_fair_value == old(self).tranche_fair_value,
            old(self).wf() ==> final(self).wf(),
    {
        if halt_flags & !HALT_FLAGS_ALL != 0 {
            Err(UpdateTrancheError::InvalidHaltFlagsBits)
        } else {
            self.halt_flags = halt_flags;
            Ok(())
        }
    }

    /// Replaces the reserve fair value's stale-slot threshold. Cannot
    /// fail: the full unsigned domain is valid.
    pub fn set_reserve_fair_value_stale_slot_threshold(&mut self, stale_slot_threshold: u64)
        ensures
            final(self).reserve_fair_value.slot_tracking.stale_slot_threshold
                == stale_slot_threshold,
            final(self).halt_flags == old(self).halt_flags,
            final(self).tranche_fair_value == old(self).tranche_fair_value,
    {
        self.reserve_fair_value.slot_tracking.stale_slot_threshold = stale_slot_threshold;
    }

    /// Replaces the tranche fair value's stale-slot threshold. Cannot
    /// fail: the full unsigned domain is valid.
    pub fn set_tranche_fair_value_stale_slot_threshold(&mut self, stale_slot_threshold: u64)
        ensures
            final(self).tranche_fair_value.slot_tracking.stale_slot_threshold
                == stale_slot_threshold,
            final(self).halt_flags == old(self).halt_flags,
            final(self).reserve_fair_value == old(self).reserve_fair_value,
    {
        self.tranche_fair_value.slot_tracking.stale_slot_threshold = stale_slot_threshold;
    }
}

/// The persisted configuration record: owned by exactly one principal,
/// fixed at creation; only the tranche data sub-record is ever updated
/// through this protocol.
#[derive(Clone, Copy, Debug)]
pub struct TrancheConfig {
    /// Key of the record's owner. Never changes through this protocol.
    pub owner: [u8; 32],
    /// The updatable sub-record.
    pub tranche_data: TrancheData,
}

} // verus!
