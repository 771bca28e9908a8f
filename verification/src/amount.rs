//! Signed fixed-point amounts.

use crate::scaling::{lemma_pow10_monotonic, lemma_pow10_values, pow10, pow10_u128};
use vstd::prelude::*;

verus! {

/// Number of decimal places that an amount carries.
pub const SCALE_DIGITS: u32 = 8;

/// Number of units in the amount 1.
pub const SCALE: u64 = 100_000_000;

/// An amount with eight decimal places, counted in units of 10^-8.
///
/// The view of an amount is its number of units, so the amount 1.5 has the
/// view 150_000_000.
#[derive(Clone, Copy, Debug, PartialEq, Eq, Ord, Hash, Structural)]
pub struct Amount {
    pub units: i128,
}

impl View for Amount {
    type V = int;

    open spec fn view(&self) -> int {
        self.units as int
    }
}

/// The units of an optional amount.
pub open spec fn units_of_amount(amount: Option<Amount>) -> Option<int> {
    match amount {
        Some(a) => Some(a@),
        None => None,
    }
}

impl Amount {
    /// The amount of `units` units of 10^-8.
    pub fn from_units(units: i128) -> (r: Amount)
        ensures
            r@ == units,
    {
        Amount { units }
    }

    /// The number of units of 10^-8 in this amount.
    pub fn units(&self) -> (r: i128)
        ensures
            r == self@,
    {
        self.units
    }

    /// The amount 0.
    pub fn zero() -> (r: Amount)
        ensures
            r@ == 0,
    {
        Amount { units: 0 }
    }

    /// The amount 1.
    pub fn one() -> (r: Amount)
        ensures
            r@ == SCALE,
    {
        Amount { units: 100_000_000 }
    }

    /// The whole amount `n`.
    pub fn from_int(n: i64) -> (r: Amount)
        ensures
            r@ == n * SCALE,
    {
        Amount { units: (n as i128) * 100_000_000 }
    }

    /// The amount `mantissa * 10^-decimals`, where eight decimal places can
    /// hold it exactly: with more than eight there is no amount.
    pub fn from_scaled(mantissa: i64, decimals: u32) -> (r: Option<Amount>)
        ensures
            decimals <= SCALE_DIGITS ==> r is Some && r.unwrap()@ == mantissa * pow10(
                (SCALE_DIGITS - decimals) as nat,
            ),
            decimals > SCALE_DIGITS ==> r is None,
    {
        if decimals > SCALE_DIGITS {
            return None;
        }
        let factor: u128 = pow10_u128(SCALE_DIGITS - decimals);
        proof {
            lemma_pow10_monotonic((SCALE_DIGITS - decimals) as nat, 8);
            lemma_pow10_values();
            assert(-0x8000_0000_0000_0000 * 100_000_000 <= mantissa * factor
                <= 0x8000_0000_0000_0000 * 100_000_000) by (nonlinear_arith)
                requires
                    -0x8000_0000_0000_0000 <= mantissa < 0x8000_0000_0000_0000,
                    0 < factor <= 100_000_000,
            ;
        }
        Some(Amount { units: (mantissa as i128) * (factor as i128) })
    }

    /// The sum of two amounts, where 128 bits can hold it.
    pub fn checked_add(&self, other: &Amount) -> (r: Option<Amount>)
        ensures
            i128::MIN <= self@ + other@ <= i128::MAX ==> r is Some && r.unwrap()@ == self@
                + other@,
            !(i128::MIN <= self@ + other@ <= i128::MAX) ==> r is None,
    {
        match self.units.checked_add(other.units) {
            Some(units) => Some(Amount { units }),
            None => None,
        }
    }

    /// The difference of two amounts, where 128 bits can hold it.
    pub fn checked_sub(&self, other: &Amount) -> (r: Option<Amount>)
        ensures
            i128::MIN <= self@ - other@ <= i128::MAX ==> r is Some && r.unwrap()@ == self@
                - other@,
            !(i128::MIN <= self@ - other@ <= i128::MAX) ==> r is None,
    {
        match self.units.checked_sub(other.units) {
            Some(units) => Some(Amount { units }),
            None => None,
        }
    }

    /// The larger of two amounts.
    pub fn max(self, other: Amount) -> (r: Amount)
        ensures
            r@ == if self@ >= other@ { self@ } else { other@ },
    {
        if self >= other {
            self
        } else {
            other
        }
    }

    /// The smaller of two amounts.
    pub fn min(self, other: Amount) -> (r: Amount)
        ensures
            r@ == if self@ <= other@ { self@ } else { other@ },
    {
        if self <= other {
            self
        } else {
            other
        }
    }
}

} // verus!
