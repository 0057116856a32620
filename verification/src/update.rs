use vstd::prelude::*;

use crate::errors::UpdateTrancheError;
use crate::selectors::SELECTOR_HALT_FLAGS;
use crate::selectors::SELECTOR_RESERVE_FAIR_VALUE_STALE_SLOT_THRESHOLD;
use crate::selectors::UpdateTrancheConfigFlags;
use crate::selectors::decoded_selectors;
use crate::selectors::selector_bits_recognized;
use crate::tranche::FairValue;
use crate::tranche::SlotTracking;
use crate::tranche::TrancheConfig;
use crate::tranche::TrancheData;
use crate::tranche::halt_flags_recognized;

verus! {

/// One update request: the selector bitmask plus one candidate raw value
/// per updatable field, all supplied whether or not selected. Transient:
/// built by the caller per invocation and consumed by one application
/// attempt.
#[derive(Clone, Copy)]
pub struct UpdateTrancheDataInput {
    pub bitmask: u16,
    pub halt_flags: u16,
    pub reserve_fair_value_stale_slot_threshold: u64,
    pub tranche_fair_value_stale_slot_threshold: u64,
}

impl Default for UpdateTrancheDataInput {
    fn default() -> (input: Self)
        ensures
            input.bitmask == 0,
            input.halt_flags == 0,
            input.reserve_fair_value_stale_slot_threshold == 0,
            input.tranche_fair_value_stale_slot_threshold == 0,
    {
        UpdateTrancheDataInput {
            bitmask: 0,
            halt_flags: 0,
            reserve_fair_value_stale_slot_threshold: 0,
            tranche_fair_value_stale_slot_threshold: 0,
        }
    }
}

impl UpdateTrancheDataInput {
    /// Decodes the request's selector bitmask, or `None` if it has any bit
    /// outside the recognized selector set.
    pub fn get_update_tranche_bitmask(&self) -> (decoded: Option<UpdateTrancheConfigFlags>)
        ensures
            selector_bits_recognized(self.bitmask) ==> decoded == Some(
                decoded_selectors(self.bitmask),
            ),
            !selector_bits_recognized(self.bitmask) ==> decoded == None::<
                UpdateTrancheConfigFlags,
            >,
    {
        UpdateTrancheConfigFlags::from_bits(self.bitmask)
    }
}

/// The record after one application: each selected field holds its
/// candidate value, each unselected field its prior value.
pub open spec fn applied_tranche_data(
    tranche_data: TrancheData,
    selectors: UpdateTrancheConfigFlags,
    input: UpdateTrancheDataInput,
) -> TrancheData {
    TrancheData {
        halt_flags: if selectors.halt_flags {
            input.halt_flags
        } else {
            tranche_data.halt_flags
        },
        reserve_fair_value: if selectors.reserve_fair_value_stale_slot_threshold {
            FairValue {
                slot_tracking: SlotTracking {
                    stale_slot_threshold: input.reserve_fair_value_stale_slot_threshold,
                },
            }
        } else {
            tranche_data.reserve_fair_value
        },
        tranche_fair_value: if selectors.tranche_fair_value_stale_slot_threshold {
            FairValue {
                slot_tracking: SlotTracking {
                    stale_slot_threshold: input.tranche_fair_value_stale_slot_threshold,
                },
            }
        } else {
            tranche_data.tranche_fair_value
        },
    }
}

/// Applies each selected field's candidate value through that field's own
/// validated setter, in selector-declaration order: halt flags, then the
/// reserve threshold, then the tranche threshold. Fails on the first
/// setter that rejects its value. The halt flags are the only fallible
/// field and come first, so on failure the record is unchanged.
pub fn apply_update(
    tranche_data: &mut TrancheData,
    selectors: UpdateTrancheConfigFlags,
    input_data: UpdateTrancheDataInput,
) -> (result: Result<(), UpdateTrancheError>)
    ensures
        result matches Ok(()) <==> (selectors.halt_flags ==> halt_flags_recognized(
            input_data.halt_flags,
        )),
        result matches Err(e) ==> e == UpdateTrancheError::InvalidHaltFlagsBits
            && *final(tranche_data) == *old(tranche_data),
        result matches Ok(()) ==> *final(tranche_data) == applied_tranche_data(
            *old(tranche_data),
            selectors,
            input_data,
        ),
        old(tranche_data).wf() ==> final(tranche_data).wf(),
{
    if selectors.halt_flags {
        match tranche_data.set_halt_flags(input_data.halt_flags) {
            Ok(()) => {},
            Err(e) => {
                return Err(e);
            },
        }
    }
    if selectors.reserve_fair_value_stale_slot_threshold {
        tranche_data.set_reserve_fair_value_stale_slot_threshold(
            input_data.reserve_fair_value_stale_slot_threshold,
        );
    }
    if selectors.tranche_fair_value_stale_slot_threshold {
        tranche_data.set_tranche_fair_value_stale_slot_threshold(
            input_data.tranche_fair_value_stale_slot_threshold,
        );
    }
    Ok(())
}

/// The invocation context: the authenticated signer and the configuration
/// record the request targets. The host environment verifies the signature
/// and loads the record; this core only consumes the established result.
#[derive(Clone, Copy, Debug)]
pub struct UpdateTrancheDataContext {
    /// Key of the signer the host environment has authenticated.
    pub owner: [u8; 32],
    /// The configuration record being updated.
    pub tranche_config: TrancheConfig,
}

impl UpdateTrancheDataContext {
    /// The authenticated signer is the record's recorded owner. The caller
    /// must have established this before invoking the handler; the handler
    /// performs no authentication of its own.
    pub open spec fn authorized(&self) -> bool {
        self.owner == self.tranche_config.owner
    }
}

/// Processes one update request against the record in the context:
/// decodes the selector bitmask, then applies each selected field's
/// candidate value in selector-declaration order.
///
/// A bitmask with a bit outside the recognized selector set fails the
/// whole request with no field touched. A selected halt-flags candidate
/// with an unrecognized bit fails with the record unchanged. On success
/// every selected field holds its candidate value and every unselected
/// field its prior value; the record's owner never changes.
pub fn handler(ctx: &mut UpdateTrancheDataContext, input_data: UpdateTrancheDataInput) -> (result:
    Result<(), UpdateTrancheError>)
    requires
        old(ctx).authorized(),
        old(ctx).tranche_config.tranche_data.wf(),
    ensures
        final(ctx).owner == old(ctx).owner,
        final(ctx).tranche_config.owner == old(ctx).tranche_config.owner,
        final(ctx).authorized(),
        final(ctx).tranche_config.tranche_data.wf(),
        result matches Ok(()) <==> (selector_bits_recognized(input_data.bitmask)
            && (decoded_selectors(input_data.bitmask).halt_flags ==> halt_flags_recognized(
            input_data.halt_flags,
        ))),
        !selector_bits_recognized(input_data.bitmask) ==> result == Err::<
            (),
            UpdateTrancheError,
        >(UpdateTrancheError::UnrecognizedSelectorBits),
        selector_bits_recognized(input_data.bitmask) && decoded_selectors(
            input_data.bitmask,
        ).halt_flags && !halt_flags_recognized(input_data.halt_flags) ==> result == Err::<
            (),
            UpdateTrancheError,
        >(UpdateTrancheError::InvalidHaltFlagsBits),
        result matches Err(e) ==> final(ctx).tranche_config.tranche_data == old(
            ctx,
        ).tranche_config.tranche_data,
        result matches Ok(()) ==> final(ctx).tranche_config.tranche_data == applied_tranche_data(
            old(ctx).tranche_config.tranche_data,
            decoded_selectors(input_data.bitmask),
            input_data,
        ),
{
    let selectors = match input_data.get_update_tranche_bitmask() {
        Some(selectors) => selectors,
        None => {
            return Err(UpdateTrancheError::UnrecognizedSelectorBits);
        },
    };
    apply_update(&mut ctx.tranche_config.tranche_data, selectors, input_data)
}

/// Law: an application changes exactly the selected fields. Each selected
/// field takes its candidate value; each unselected field keeps its prior
/// value, whatever candidate the request carried for it.
pub proof fn lemma_applied_fields(
    tranche_data: TrancheData,
    selectors: UpdateTrancheConfigFlags,
    input: UpdateTrancheDataInput,
)
    ensures
        selectors.halt_flags ==> applied_tranche_data(tranche_data, selectors, input).halt_flags
            == input.halt_flags,
        !selectors.halt_flags ==> applied_tranche_data(tranche_data, selectors, input).halt_flags
            == tranche_data.halt_flags,
        selectors.reserve_fair_value_stale_slot_threshold ==> applied_tranche_data(
            tranche_data,
            selectors,
            input,
        ).reserve_fair_value.slot_tracking.stale_slot_threshold
            == input.reserve_fair_value_stale_slot_threshold,
        !selectors.reserve_fair_value_stale_slot_threshold ==> applied_tranche_data(
            tranche_data,
            selectors,
            input,
        ).reserve_fair_value == tranche_data.reserve_fair_value,
        selectors.tranche_fair_value_stale_slot_threshold ==> applied_tranche_data(
            tranche_data,
            selectors,
            input,
        ).tranche_fair_value.slot_tracking.stale_slot_threshold
            == input.tranche_fair_value_stale_slot_threshold,
        !selectors.tranche_fair_value_stale_slot_threshold ==> applied_tranche_data(
            tranche_data,
            selectors,
            input,
        ).tranche_fair_value == tranche_data.tranche_fair_value,
{
}

/// Law: a request whose bitmask selects only the halt flags, with a
/// candidate that decomposes into recognized halt-flag bits, is owed
/// success, and its application changes exactly `halt_flags`, leaving both
/// stale-slot thresholds unchanged.
pub proof fn lemma_halt_flags_only_update(
    tranche_data: TrancheData,
    input: UpdateTrancheDataInput,
)
    requires
        input.bitmask == SELECTOR_HALT_FLAGS,
        halt_flags_recognized(input.halt_flags),
    ensures
        selector_bits_recognized(input.bitmask),
        decoded_selectors(input.bitmask).halt_flags,
        applied_tranche_data(tranche_data, decoded_selectors(input.bitmask), input).halt_flags
            == input.halt_flags,
        applied_tranche_data(
            tranche_data,
            decoded_selectors(input.bitmask),
            input,
        ).reserve_fair_value == tranche_data.reserve_fair_value,
        applied_tranche_data(
            tranche_data,
            decoded_selectors(input.bitmask),
            input,
        ).tranche_fair_value == tranche_data.tranche_fair_value,
{
    assert(0b001u16 & !0b111u16 == 0) by (bit_vector);
    assert(0b001u16 & 0b001u16 != 0) by (bit_vector);
    assert(0b001u16 & 0b010u16 == 0) by (bit_vector);
    assert(0b001u16 & 0b100u16 == 0) by (bit_vector);
}

/// Law: a request whose bitmask selects only the reserve fair value's
/// stale-slot threshold is owed success for every candidate value in the
/// full unsigned domain, and its application sets that threshold to the
/// candidate, leaving `halt_flags` and the tranche fair value's threshold
/// unchanged.
pub proof fn lemma_reserve_threshold_only_update(
    tranche_data: TrancheData,
    input: UpdateTrancheDataInput,
)
    requires
        input.bitmask == SELECTOR_RESERVE_FAIR_VALUE_STALE_SLOT_THRESHOLD,
    ensures
        selector_bits_recognized(input.bitmask),
        !decoded_selectors(input.bitmask).halt_flags,
        applied_tranche_data(
            tranche_data,
            decoded_selectors(input.bitmask),
            input,
        ).reserve_fair_value.slot_tracking.stale_slot_threshold
            == input.reserve_fair_value_stale_slot_threshold,
        applied_tranche_data(tranche_data, decoded_selectors(input.bitmask), input).halt_flags
            == tranche_data.halt_flags,
        applied_tranche_data(
            tranche_data,
            decoded_selectors(input.bitmask),
            input,
        ).tranche_fair_value == tranche_data.tranche_fair_value,
{
    assert(0b010u16 & !0b111u16 == 0) by (bit_vector);
    assert(0b010u16 & 0b001u16 == 0) by (bit_vector);
    assert(0b010u16 & 0b010u16 != 0) by (bit_vector);
    assert(0b010u16 & 0b100u16 == 0) by (bit_vector);
}

} // verus!
