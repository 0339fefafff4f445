//! Decimal arithmetic, carried out by `rust_decimal`.
//!
//! Every function here hands two amounts to `rust_decimal` and receives a
//! plain value back. Their contracts are taken on trust from that crate:
//! nothing in this library proves them.
//!
//! An amount goes in through `Decimal::from_parts`, which refuses a scale
//! above 28 and clears the sign of a zero; no [`Amount`] has such a scale.
//! A result comes back through `Decimal::unpack`.

use vstd::prelude::*;
use rust_decimal::Decimal;
use crate::amount::{viewed, Amount, AmountView};

verus! {

/// What `Decimal::checked_add` yields for two non-zero operands: the sum,
/// rounded where 96 bits cannot hold it exactly, or `None` on overflow.
pub uninterp spec fn decimal_sum(a: AmountView, b: AmountView) -> Option<AmountView>;

/// What `Decimal::checked_sub` yields: the difference, rounded where 96 bits
/// cannot hold it exactly, or `None` on overflow.
pub uninterp spec fn decimal_difference(a: AmountView, b: AmountView) -> Option<AmountView>;

/// What `Decimal::checked_mul` yields: the product, rounded where 96 bits or
/// 28 fractional digits cannot hold it exactly, or `None` on overflow.
pub uninterp spec fn decimal_product(a: AmountView, b: AmountView) -> Option<AmountView>;

/// The sum of two amounts. A zero operand leaves the other one as it is,
/// scale included; otherwise the result is `rust_decimal`'s. `None` stands
/// for overflow.
pub open spec fn sum(a: AmountView, b: AmountView) -> Option<AmountView> {
    if a.is_zero() {
        Some(b.normalized())
    } else if b.is_zero() {
        Some(a)
    } else {
        decimal_sum(a, b)
    }
}

/// Calls `Decimal::checked_add`. Trusted: adding a zero returns the other
/// operand with its scale (a zero loses its sign on the way in); for two
/// non-zero operands the result is the one named `decimal_sum`.
#[verifier::external_body]
pub(crate) fn checked_add(a: Amount, b: Amount) -> (r: Option<Amount>)
    ensures
        viewed(r) == if a@.is_zero() {
            Some(b@.normalized())
        } else if b@.is_zero() {
            Some(a@)
        } else {
            decimal_sum(a@, b@)
        },
{
    let x = Decimal::from_parts(a.lo, a.mid, a.hi, a.negative, a.scale);
    let y = Decimal::from_parts(b.lo, b.mid, b.hi, b.negative, b.scale);
    x.checked_add(y).map(|d| {
        let u = d.unpack();
        Amount { lo: u.lo, mid: u.mid, hi: u.hi, negative: u.negative, scale: u.scale }
    })
}

/// Calls `Decimal::checked_sub`. Trusted: the result is the one named
/// `decimal_difference` for the two views.
#[verifier::external_body]
pub(crate) fn checked_sub(a: Amount, b: Amount) -> (r: Option<Amount>)
    ensures
        viewed(r) == decimal_difference(a@, b@),
{
    let x = Decimal::from_parts(a.lo, a.mid, a.hi, a.negative, a.scale);
    let y = Decimal::from_parts(b.lo, b.mid, b.hi, b.negative, b.scale);
    x.checked_sub(y).map(|d| {
        let u = d.unpack();
        Amount { lo: u.lo, mid: u.mid, hi: u.hi, negative: u.negative, scale: u.scale }
    })
}

/// Calls `Decimal::checked_mul`. Trusted: the result is the one named
/// `decimal_product` for the two views.
#[verifier::external_body]
pub(crate) fn checked_mul(a: Amount, b: Amount) -> (r: Option<Amount>)
    ensures
        viewed(r) == decimal_product(a@, b@),
{
    let x = Decimal::from_parts(a.lo, a.mid, a.hi, a.negative, a.scale);
    let y = Decimal::from_parts(b.lo, b.mid, b.hi, b.negative, b.scale);
    x.checked_mul(y).map(|d| {
        let u = d.unpack();
        Amount { lo: u.lo, mid: u.mid, hi: u.hi, negative: u.negative, scale: u.scale }
    })
}

/// Compares two `Decimal`s with `>=`, which goes by `Decimal`'s `Ord::cmp`.
/// Trusted: it orders them as numbers, whatever their scales; a zero is a
/// zero with either sign.
#[verifier::external_body]
pub(crate) fn greater_or_equal(a: Amount, b: Amount) -> (r: bool)
    ensures
        r == a@.at_least(b@),
{
    let x = Decimal::from_parts(a.lo, a.mid, a.hi, a.negative, a.scale);
    let y = Decimal::from_parts(b.lo, b.mid, b.hi, b.negative, b.scale);
    x >= y
}

} // verus!
