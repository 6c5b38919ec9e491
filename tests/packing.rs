use zkdpos_core::packing::{
    is_fee_amount_packable, is_token_amount_packable, pack_fee_amount, pack_token_amount, unpack_fee_amount,
    unpack_token_amount,
};

#[test]
fn packs_small_amount_without_exponent() {
    assert_eq!(pack_token_amount(100), vec![0, 0, 0, 12, 128]);
    assert_eq!(unpack_token_amount(&[0, 0, 0, 12, 128]), Some(100));
}

#[test]
fn packs_large_amount_with_exponent() {
    let x: u128 = 1_000_000_000_000;
    assert_eq!(pack_token_amount(x), vec![74, 129, 124, 128, 2]);
    assert_eq!(unpack_token_amount(&pack_token_amount(x)), Some(x));
    assert!(is_token_amount_packable(x));
}

#[test]
fn fee_packing_is_lossy_for_unpackable_fees() {
    assert_eq!(pack_fee_amount(123_456), vec![154, 66]);
    assert_eq!(unpack_fee_amount(&[154, 66]), Some(123_400));
    assert!(!is_fee_amount_packable(123_456));
    assert!(is_fee_amount_packable(123_400));
    assert_eq!(pack_fee_amount(1000), vec![0x7d, 0x00]);
}

#[test]
fn packable_values_round_trip() {
    for x in [0u128, 1, 2047, 34_359_738_367, 34_359_738_3670, 5 * 10u128.pow(30)] {
        assert!(is_token_amount_packable(x));
        assert_eq!(unpack_token_amount(&pack_token_amount(x)), Some(x));
    }
    for x in [0u128, 1, 2047, 20_470, 7 * 10u128.pow(20)] {
        assert!(is_fee_amount_packable(x));
        assert_eq!(unpack_fee_amount(&pack_fee_amount(x)), Some(x));
    }
}

#[test]
fn unpackable_amounts_are_detected() {
    assert!(!is_token_amount_packable(34_359_738_369));
    assert!(!is_token_amount_packable(u128::MAX));
    assert!(!is_fee_amount_packable(2049));
}

#[test]
fn unpacking_beyond_128_bits_fails() {
    assert_eq!(unpack_token_amount(&[0xff; 5]), None);
    assert_eq!(unpack_fee_amount(&[0xff, 0xff]), Some(2047 * 10u128.pow(31)));
}
