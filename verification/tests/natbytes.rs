use pairing_codec::decimal::check_decimal;
use pairing_codec::natbytes::{
    copy_range, double_plus, halve, is_zero_bytes, relate, reversed, zero_bytes, Relation,
};

#[test]
fn bytes_are_related_as_numbers() {
    // 0x0100 against 0x00ff, least significant byte first.
    assert_eq!(relate(&[0, 1], &[255, 0]), Relation::Above);
    assert_eq!(relate(&[255, 0], &[0, 1]), Relation::Below);
    assert_eq!(relate(&[7, 9], &[7, 9]), Relation::Same);
    assert_eq!(relate(&[], &[]), Relation::Same);
    assert_eq!(relate(&[1, 2, 3], &[2, 2, 3]), Relation::Below);
}

#[test]
fn zero_is_all_zero_bytes() {
    assert!(is_zero_bytes(&[]));
    assert!(is_zero_bytes(&[0, 0, 0]));
    assert!(!is_zero_bytes(&[0, 0, 1]));
    assert!(!is_zero_bytes(&[1, 0, 0]));
    assert_eq!(zero_bytes(3), vec![0, 0, 0]);
    assert_eq!(zero_bytes(0), Vec::<u8>::new());
}

#[test]
fn ranges_are_copied_and_reversed() {
    assert_eq!(copy_range(&[1, 2, 3, 4], 1, 2), vec![2, 3]);
    assert_eq!(copy_range(&[1, 2, 3, 4], 4, 0), Vec::<u8>::new());
    assert_eq!(reversed(&[1, 2, 3]), vec![3, 2, 1]);
    assert_eq!(reversed(&[]), Vec::<u8>::new());
}

#[test]
fn doubling_carries_into_the_next_byte() {
    assert_eq!(double_plus(&[0x80, 0x01], false), vec![0x00, 0x03]);
    assert_eq!(double_plus(&[0x80, 0x01], true), vec![0x01, 0x03]);
    assert_eq!(double_plus(&[0xff, 0xff, 0x7f], true), vec![0xff, 0xff, 0xff]);
    assert_eq!(double_plus(&[0], false), vec![0]);
}

#[test]
fn halving_borrows_from_the_next_byte() {
    assert_eq!(halve(&[0x00, 0x03]), (vec![0x80, 0x01], false));
    assert_eq!(halve(&[0x01, 0x03]), (vec![0x80, 0x01], true));
    assert_eq!(halve(&[0xff, 0xff, 0xff]), (vec![0xff, 0xff, 0x7f], true));
    assert_eq!(halve(&[]), (vec![], false));
    for v in [[0u8, 0], [1, 0], [0xfe, 0x7f], [0x35, 0x12]] {
        for low in [false, true] {
            assert_eq!(halve(&double_plus(&v, low)), (v.to_vec(), low));
        }
    }
}

#[test]
fn decimal_tokens_are_digits_alone() {
    for good in ["0", "7", "0123456789", "000"] {
        assert!(check_decimal(good), "{:?}", good);
    }
    for bad in ["", " ", "-1", "+1", "1 ", "1e3", "١٢٣", "1_000", "0x1", "1\n"] {
        assert!(!check_decimal(bad), "{:?}", bad);
    }
}
