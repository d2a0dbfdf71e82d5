//! Commission arithmetic: the exact split of a payment between the seller
//! and the platform's commission recipient.

use vstd::prelude::*;
use vstd::arithmetic::div_mod::{
    lemma_div_is_ordered,
    lemma_div_multiples_vanish,
    lemma_div_pos_is_pos,
};
use vstd::arithmetic::mul::{lemma_mul_inequality, lemma_mul_is_commutative};
use crate::errors::ErrorCode;
use crate::listing::MAX_COMMISSION_BPS;

verus! {

/// The commission owed on `payment` at a rate of `bps` basis points:
/// `floor(payment * bps / 10000)`. The platform always rounds the commission
/// down, and so the seller share up.
pub open spec fn commission_of(payment: int, bps: int) -> int {
    (payment * bps) / 10000
}

/// The seller's share: whatever the commission leaves of the payment.
pub open spec fn seller_share_of(payment: int, bps: int) -> int {
    payment - commission_of(payment, bps)
}

/// The two non-overlapping shares of one exact payment.
#[derive(Clone, Copy, Debug, PartialEq, Eq, Structural)]
pub struct PaymentSplit {
    /// Amount owed to the platform's commission recipient.
    pub commission_amount: u64,
    /// Amount owed to the seller.
    pub seller_amount: u64,
}

/// For every admissible rate the commission never exceeds the payment, so
/// the seller share is never negative and the two shares sum to the payment.
pub proof fn lemma_commission_bounds(payment: int, bps: int)
    requires
        0 <= payment,
        0 <= bps <= MAX_COMMISSION_BPS,
    ensures
        0 <= commission_of(payment, bps) <= payment,
        seller_share_of(payment, bps) + commission_of(payment, bps) == payment,
        0 <= seller_share_of(payment, bps) <= payment,
{
    lemma_mul_inequality(0, payment, bps);
    lemma_div_pos_is_pos(payment * bps, 10000);
    lemma_mul_inequality(bps, 10000, payment);
    lemma_mul_is_commutative(bps, payment);
    lemma_mul_is_commutative(10000, payment);
    lemma_div_is_ordered(payment * bps, 10000 * payment, 10000);
    lemma_div_multiples_vanish(payment, 10000);
}

/// A rate of 10000 basis points is a 100% commission: the whole payment goes
/// to the commission recipient and the seller share is zero.
pub proof fn lemma_full_commission_rate(payment: int)
    requires
        0 <= payment,
    ensures
        commission_of(payment, MAX_COMMISSION_BPS as int) == payment,
        seller_share_of(payment, MAX_COMMISSION_BPS as int) == 0,
{
    lemma_mul_is_commutative(payment, 10000);
    lemma_div_multiples_vanish(payment, 10000);
}

/// A rate of zero basis points yields a zero commission: the whole payment
/// goes to the seller.
pub proof fn lemma_zero_commission_rate(payment: int)
    requires
        0 <= payment,
    ensures
        commission_of(payment, 0) == 0,
        seller_share_of(payment, 0) == payment,
{
    lemma_mul_is_commutative(payment, 0);
    lemma_div_multiples_vanish(0, 10000);
}

/// Splits `payment` at `commission_bps`, rounding the commission down.
///
/// The subtraction that yields the seller share is checked: a commission
/// beyond the payment aborts with `ArithmeticError` instead of wrapping.
/// That guard cannot fire for a rate within `MAX_COMMISSION_BPS`, but it is
/// a required defensive invariant, not an optimization.
pub fn split_payment(payment: u64, commission_bps: u16) -> (r: Result<PaymentSplit, ErrorCode>)
    ensures
        r is Ok <==> commission_of(payment as int, commission_bps as int) <= payment,
        commission_bps <= MAX_COMMISSION_BPS ==> r is Ok,
        r matches Ok(s) ==> {
            &&& s.commission_amount == commission_of(payment as int, commission_bps as int)
            &&& s.seller_amount == seller_share_of(payment as int, commission_bps as int)
            &&& s.seller_amount + s.commission_amount == payment
        },
        r is Err ==> r == Err::<PaymentSplit, ErrorCode>(ErrorCode::ArithmeticError),
{
    proof {
        assert((payment as int) * (commission_bps as int) <= 0xffff_ffff_ffff_ffff * 0xffff)
            by (nonlinear_arith)
            requires
                payment <= 0xffff_ffff_ffff_ffffu64,
                commission_bps <= 0xffffu16,
        ;
        if commission_bps <= MAX_COMMISSION_BPS {
            lemma_commission_bounds(payment as int, commission_bps as int);
        }
    }
    let commission_wide: u128 = (payment as u128) * (commission_bps as u128) / 10000;
    if commission_wide > payment as u128 {
        return Err(ErrorCode::ArithmeticError);
    }
    let commission_amount: u64 = commission_wide as u64;
    let seller_amount: u64 = payment - commission_amount;
    Ok(PaymentSplit { commission_amount, seller_amount })
}

} // verus!
