//! The split of a price between the platform's treasury and the creator.

use crate::error::SkillstoreError;
use vstd::prelude::*;

verus! {

/// The fee rate that takes the whole price: ten thousand basis points.
pub const MAX_FEE_BASIS_POINTS: u16 = 10000;

/// The fee owed on `price` at a rate of `fee_basis_points`: the product
/// divided by ten thousand, rounded down.
pub open spec fn fee_of(price: int, fee_basis_points: int) -> int {
    price * fee_basis_points / 10000
}

/// What a buyer's payment is divided into.
#[derive(Clone, Copy, Debug, PartialEq, Eq, Structural)]
pub struct PaymentSplit {
    /// The part that goes to the treasury.
    pub fee: u64,
    /// The part that goes to the creator.
    pub creator_amount: u64,
}

/// The split that `price` and `fee_basis_points` call for, if the fee does
/// not exceed the price.
pub open spec fn split_of(price: u64, fee_basis_points: u16) -> Option<PaymentSplit> {
    let fee = fee_of(price as int, fee_basis_points as int);
    if fee <= price {
        Some(PaymentSplit { fee: fee as u64, creator_amount: (price - fee) as u64 })
    } else {
        None
    }
}

/// At a rate of at most ten thousand basis points the fee lies between zero
/// and the price.
pub proof fn lemma_fee_within_price(price: u64, fee_basis_points: u16)
    requires
        fee_basis_points <= 10000,
    ensures
        0 <= fee_of(price as int, fee_basis_points as int) <= price,
{
    let p = price as int;
    let b = fee_basis_points as int;
    assert(0 <= p * b <= p * 10000) by (nonlinear_arith)
        requires
            0 <= p,
            0 <= b <= 10000,
    ;
    assert(p * 10000 / 10000 == p) by (nonlinear_arith);
    assert(p * b / 10000 <= p * 10000 / 10000) by (nonlinear_arith)
        requires
            p * b <= p * 10000,
    ;
    assert(0 <= p * b / 10000) by (nonlinear_arith)
        requires
            0 <= p * b,
    ;
}

/// Whatever the price, a valid rate splits it into two parts that add up to
/// the price again, the fee being the rounded-down share of the treasury.
pub proof fn lemma_split_is_exact(price: u64, fee_basis_points: u16)
    requires
        fee_basis_points <= 10000,
    ensures
        split_of(price, fee_basis_points) matches Some(split) && split.fee + split.creator_amount
            == price && split.fee == fee_of(price as int, fee_basis_points as int),
{
    lemma_fee_within_price(price, fee_basis_points);
}

/// Divides `price` into the treasury's fee and the creator's amount. The
/// product is formed in 128 bits, so that no price overflows it. A rate
/// above ten thousand basis points may ask for more than the price: that is
/// refused, never wrapped.
pub fn split_payment(price: u64, fee_basis_points: u16) -> (split: Result<PaymentSplit, SkillstoreError>)
    ensures
        split == match split_of(price, fee_basis_points) {
            Some(parts) => Ok::<PaymentSplit, SkillstoreError>(parts),
            None => Err::<PaymentSplit, SkillstoreError>(SkillstoreError::ArithmeticOverflow),
        },
        fee_basis_points <= 10000 ==> (split matches Ok(parts) && parts.fee + parts.creator_amount
            == price && parts.fee == fee_of(price as int, fee_basis_points as int)),
{
    let wide_price: u128 = price as u128;
    let wide_rate: u128 = fee_basis_points as u128;
    assert(wide_price * wide_rate <= 0xffff_ffff_ffff_ffff * 0xffff) by (nonlinear_arith)
        requires
            wide_price <= 0xffff_ffff_ffff_ffff,
            wide_rate <= 0xffff,
    ;
    let wide_fee: u128 = wide_price * wide_rate / 10000;
    proof {
        if fee_basis_points <= 10000 {
            lemma_fee_within_price(price, fee_basis_points);
        }
    }
    if wide_fee > wide_price {
        return Err(SkillstoreError::ArithmeticOverflow);
    }
    let fee: u64 = wide_fee as u64;
    Ok(PaymentSplit { fee, creator_amount: price - fee })
}

} // verus!
