use clean_code_notes_exercises::amount::Amount;

#[test]
fn plain_text_drops_trailing_zeros() {
    assert_eq!(Amount::new(10043, 2).plain_text(), "100.43");
    assert_eq!(Amount::new(2390, 2).plain_text(), "23.9");
    assert_eq!(Amount::new(500, 2).plain_text(), "5");
    assert_eq!(Amount::new(5, 3).plain_text(), "0.005");
    assert_eq!(Amount::new(0, 4).plain_text(), "0");
    assert_eq!(Amount::new(120, 0).plain_text(), "120");
    assert_eq!(Amount::new(1, 30).plain_text(), "0.000000000000000000000000000001");
    assert_eq!(Amount::new(u64::MAX, 0).plain_text(), "18446744073709551615");
}

#[test]
fn two_decimal_text_rounds_half_to_even() {
    assert_eq!(Amount::new(2399, 2).two_decimal_text(), "23.99");
    assert_eq!(Amount::new(239, 1).two_decimal_text(), "23.90");
    assert_eq!(Amount::new(0, 0).two_decimal_text(), "0.00");
    assert_eq!(Amount::new(125, 3).two_decimal_text(), "0.12");
    assert_eq!(Amount::new(135, 3).two_decimal_text(), "0.14");
    assert_eq!(Amount::new(1251, 4).two_decimal_text(), "0.13");
    assert_eq!(Amount::new(99999, 3).two_decimal_text(), "100.00");
    assert_eq!(Amount::new(5, 3).two_decimal_text(), "0.00");
    assert_eq!(Amount::new(u64::MAX, 40).two_decimal_text(), "0.00");
    assert_eq!(Amount::new(u64::MAX, 0).two_decimal_text(), "18446744073709551615.00");
}
