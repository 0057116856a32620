use tranche_update::selectors::SELECTOR_BITS_ALL;
use tranche_update::selectors::SELECTOR_HALT_FLAGS;
use tranche_update::selectors::SELECTOR_RESERVE_FAIR_VALUE_STALE_SLOT_THRESHOLD;
use tranche_update::selectors::SELECTOR_TRANCHE_FAIR_VALUE_STALE_SLOT_THRESHOLD;
use tranche_update::selectors::UpdateTrancheConfigFlags;
use tranche_update::update::UpdateTrancheDataInput;

#[test]
fn decode_accepts_every_recognized_bitmask() {
    for bitmask in 0u16..8u16 {
        assert!(UpdateTrancheConfigFlags::from_bits(bitmask).is_some());
    }
}

#[test]
fn decode_then_encode_round_trips() {
    for bitmask in 0u16..8u16 {
        let selectors = UpdateTrancheConfigFlags::from_bits(bitmask).unwrap();
        assert_eq!(selectors.bits(), bitmask);
    }
}

#[test]
fn decode_rejects_each_unrecognized_bit() {
    for shift in 3u32..16u32 {
        let bitmask: u16 = 1u16 << shift;
        assert_eq!(UpdateTrancheConfigFlags::from_bits(bitmask), None);
    }
}

#[test]
fn decode_rejects_mixed_recognized_and_unrecognized_bits() {
    assert_eq!(UpdateTrancheConfigFlags::from_bits(0b1001), None);
    assert_eq!(UpdateTrancheConfigFlags::from_bits(0b1111), None);
    assert_eq!(UpdateTrancheConfigFlags::from_bits(u16::MAX), None);
}

#[test]
fn decode_splits_bits_into_named_selectors() {
    let halt_only = UpdateTrancheConfigFlags::from_bits(SELECTOR_HALT_FLAGS).unwrap();
    assert!(halt_only.halt_flags);
    assert!(!halt_only.reserve_fair_value_stale_slot_threshold);
    assert!(!halt_only.tranche_fair_value_stale_slot_threshold);

    let reserve_only =
        UpdateTrancheConfigFlags::from_bits(SELECTOR_RESERVE_FAIR_VALUE_STALE_SLOT_THRESHOLD)
            .unwrap();
    assert!(!reserve_only.halt_flags);
    assert!(reserve_only.reserve_fair_value_stale_slot_threshold);
    assert!(!reserve_only.tranche_fair_value_stale_slot_threshold);

    let tranche_only =
        UpdateTrancheConfigFlags::from_bits(SELECTOR_TRANCHE_FAIR_VALUE_STALE_SLOT_THRESHOLD)
            .unwrap();
    assert!(!tranche_only.halt_flags);
    assert!(!tranche_only.reserve_fair_value_stale_slot_threshold);
    assert!(tranche_only.tranche_fair_value_stale_slot_threshold);

    let all = UpdateTrancheConfigFlags::from_bits(SELECTOR_BITS_ALL).unwrap();
    assert!(all.halt_flags);
    assert!(all.reserve_fair_value_stale_slot_threshold);
    assert!(all.tranche_fair_value_stale_slot_threshold);
}

#[test]
fn encode_unions_the_selected_bits() {
    let selectors = UpdateTrancheConfigFlags {
        halt_flags: true,
        reserve_fair_value_stale_slot_threshold: false,
        tranche_fair_value_stale_slot_threshold: true,
    };
    assert_eq!(selectors.bits(), 0b101);
    let none_selected = UpdateTrancheConfigFlags {
        halt_flags: false,
        reserve_fair_value_stale_slot_threshold: false,
        tranche_fair_value_stale_slot_threshold: false,
    };
    assert_eq!(none_selected.bits(), 0);
}

#[test]
fn request_bitmask_decodes_through_the_request() {
    let input = UpdateTrancheDataInput {
        bitmask: 0b011,
        halt_flags: 0,
        reserve_fair_value_stale_slot_threshold: 0,
        tranche_fair_value_stale_slot_threshold: 0,
    };
    let selectors = input.get_update_tranche_bitmask().unwrap();
    assert!(selectors.halt_flags);
    assert!(selectors.reserve_fair_value_stale_slot_threshold);
    assert!(!selectors.tranche_fair_value_stale_slot_threshold);

    let bad = UpdateTrancheDataInput {
        bitmask: 0b1000,
        halt_flags: 0,
        reserve_fair_value_stale_slot_threshold: 0,
        tranche_fair_value_stale_slot_threshold: 0,
    };
    assert_eq!(bad.get_update_tranche_bitmask(), None);
}
