//! Fixed-point arithmetic with 18 fractional digits.
//!
//! A fixed-point value is held as its count of atomic units: the value 1.0 is
//! `10^18` atomic units. The arithmetic itself is done by
//! `secret_cosmwasm_std::Decimal`; the functions below that are marked
//! `external_body` call it and state, without proof, what it computes.

use secret_cosmwasm_std::{Decimal, Uint128};
use vstd::prelude::*;

verus! {

/// Atomic units in the fixed-point value 1.0.
pub open spec fn fractional() -> nat {
    1_000_000_000_000_000_000
}

/// Atomic units of `numerator / denominator`, rounded down.
pub open spec fn ratio_atomics(numerator: nat, denominator: nat) -> nat
    recommends
        denominator != 0,
{
    numerator * fractional() / denominator
}

/// The quotient `numerator / denominator` as atomic units, where it exists and
/// fits in 128 bits.
pub open spec fn checked_ratio(numerator: u128, denominator: u128) -> Option<u128> {
    if denominator != 0 && ratio_atomics(numerator as nat, denominator as nat) <= u128::MAX {
        Some(ratio_atomics(numerator as nat, denominator as nat) as u128)
    } else {
        None
    }
}

/// Atomic units of the product of two fixed-point values, rounded down.
pub open spec fn product_atomics(a: nat, b: nat) -> nat {
    a * b / fractional()
}

/// The product of two fixed-point values as atomic units, where it fits in
/// 128 bits.
pub open spec fn checked_product(a: u128, b: u128) -> Option<u128> {
    if product_atomics(a as nat, b as nat) <= u128::MAX {
        Some(product_atomics(a as nat, b as nat) as u128)
    } else {
        None
    }
}

/// Atomic units of `x` percent.
pub open spec fn percent_atomics(x: nat) -> nat {
    x * 10_000_000_000_000_000
}

/// Calls `Decimal::checked_from_ratio` and hands back the atomic units of the
/// quotient. The contract claims that the quotient is
/// `numerator * 10^18 / denominator` rounded down, computed without
/// intermediate overflow, and that the call fails exactly when the denominator
/// is zero or the quotient does not fit in 128 bits.
#[verifier::external_body]
pub(crate) fn checked_from_ratio(numerator: u128, denominator: u128) -> (r: Option<u128>)
    ensures
        r == checked_ratio(numerator, denominator),
{
    match Decimal::checked_from_ratio(numerator, denominator) {
        Ok(d) => Some(d.atomics().u128()),
        Err(_) => None,
    }
}

/// Calls `Decimal::checked_mul` on the fixed-point values with the given atomic
/// units. The contract claims that the product is `a * b / 10^18` rounded
/// down, computed in 256 bits, and that the call fails exactly when the
/// product does not fit in 128 bits.
#[verifier::external_body]
pub(crate) fn checked_mul(a: u128, b: u128) -> (r: Option<u128>)
    ensures
        r == checked_product(a, b),
{
    match Decimal::new(Uint128::new(a)).checked_mul(Decimal::new(Uint128::new(b))) {
        Ok(d) => Some(d.atomics().u128()),
        Err(_) => None,
    }
}

/// Calls `Decimal::from_atomics` with zero decimal places, which makes the
/// fixed-point value of a whole number. The contract claims that the result
/// has `value * 10^18` atomic units; for a 64-bit `value` that always fits, so
/// the call never fails.
#[verifier::external_body]
pub(crate) fn from_whole(value: u64) -> (r: Option<u128>)
    ensures
        r == Some((value as nat * fractional()) as u128),
{
    match Decimal::from_atomics(Uint128::from(value), 0) {
        Ok(d) => Some(d.atomics().u128()),
        Err(_) => None,
    }
}

/// Calls `Decimal::percent`. The contract claims that `x` percent has
/// `x * 10^16` atomic units.
#[verifier::external_body]
pub(crate) fn percent(x: u64) -> (r: u128)
    ensures
        r == percent_atomics(x as nat),
{
    Decimal::percent(x).atomics().u128()
}

/// Calls `Decimal::decimal_places` on the fixed-point value with the given
/// atomic units. The contract claims that the answer is 18 for every value.
#[verifier::external_body]
pub(crate) fn decimal_places(atomics: u128) -> (r: u32)
    ensures
        r == 18,
{
    Decimal::new(Uint128::new(atomics)).decimal_places()
}

} // verus!
