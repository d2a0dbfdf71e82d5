use solstyle_program::split_payment;
use solstyle_program::ErrorCode;

#[test]
fn split_is_exact_and_rounds_commission_down() {
    let s = split_payment(1_000_000, 500).unwrap();
    assert_eq!(s.commission_amount, 50_000);
    assert_eq!(s.seller_amount, 950_000);

    // 333 * 250 / 10000 = 8.325, rounded down.
    let s = split_payment(333, 250).unwrap();
    assert_eq!(s.commission_amount, 8);
    assert_eq!(s.seller_amount, 325);

    // The shares always recompose the payment exactly.
    for (payment, bps) in [(1u64, 1u16), (7, 9999), (u64::MAX, 10000), (u64::MAX, 1), (0, 500)] {
        let s = split_payment(payment, bps).unwrap();
        assert_eq!(s.commission_amount + s.seller_amount, payment);
        assert_eq!(s.commission_amount, ((payment as u128 * bps as u128) / 10_000) as u64);
    }
}

#[test]
fn split_at_full_rate_leaves_seller_nothing() {
    let s = split_payment(123_456, 10_000).unwrap();
    assert_eq!(s.commission_amount, 123_456);
    assert_eq!(s.seller_amount, 0);
}

#[test]
fn split_at_zero_rate_charges_no_commission() {
    let s = split_payment(123_456, 0).unwrap();
    assert_eq!(s.commission_amount, 0);
    assert_eq!(s.seller_amount, 123_456);
}

#[test]
fn split_fails_the_checked_subtraction_on_an_oversized_rate() {
    // 20000 bps would owe twice the payment: the defensive underflow check
    // aborts instead of wrapping.
    let r = split_payment(10_000, 20_000);
    assert_eq!(r.unwrap_err(), ErrorCode::ArithmeticError);
}
