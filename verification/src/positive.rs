//! Amounts that cannot be negative: prices, levels, rates.

use crate::amount::{Amount, SCALE};
use vstd::prelude::*;

verus! {

/// Why an amount is no [`Positive`].
#[derive(Clone, Copy, Debug, PartialEq, Eq, Structural)]
pub enum PositiveError {
    /// The amount is below zero.
    Negative,
    /// The amount is above the largest that 64 bits of units can hold.
    TooLarge,
}

/// An amount of at least zero, with eight decimal places, counted in units of
/// 10^-8 like an [`Amount`].
///
/// The view is the number of units. No value of this type is negative: a
/// negative amount is turned away by [`Positive::new`].
#[derive(Clone, Copy, Debug, PartialEq, Eq, Ord, Hash, Structural)]
pub struct Positive {
    pub units: u64,
}

impl View for Positive {
    type V = int;

    open spec fn view(&self) -> int {
        self.units as int
    }
}

/// The units of an optional amount.
pub open spec fn units_opt(amount: Option<Positive>) -> Option<int> {
    match amount {
        Some(p) => Some(p@),
        None => None,
    }
}

/// The units of each amount of a sequence.
pub open spec fn units_seq(amounts: Seq<Positive>) -> Seq<int> {
    amounts.map_values(|p: Positive| p@)
}

impl Positive {
    /// Checks that `value` is not negative and keeps it.
    pub fn new(value: Amount) -> (r: Result<Positive, PositiveError>)
        ensures
            value@ < 0 <==> r == Err::<Positive, PositiveError>(PositiveError::Negative),
            value@ > u64::MAX <==> r == Err::<Positive, PositiveError>(PositiveError::TooLarge),
            0 <= value@ <= u64::MAX <==> r is Ok,
            r is Ok ==> r.unwrap()@ == value@,
    {
        if value.units < 0 {
            Err(PositiveError::Negative)
        } else if value.units > u64::MAX as i128 {
            Err(PositiveError::TooLarge)
        } else {
            Ok(Positive { units: value.units as u64 })
        }
    }

    /// The amount of `units` units of 10^-8.
    pub fn from_units(units: u64) -> (r: Positive)
        ensures
            r@ == units,
    {
        Positive { units }
    }

    /// The whole amount `n`.
    pub fn from_int(n: u32) -> (r: Positive)
        ensures
            r@ == n * SCALE,
    {
        Positive { units: (n as u64) * 100_000_000 }
    }

    /// The number of units of 10^-8 in this amount.
    pub fn units(&self) -> (r: u64)
        ensures
            r == self@,
    {
        self.units
    }

    /// The amount 0.
    pub fn zero() -> (r: Positive)
        ensures
            r@ == 0,
    {
        Positive { units: 0 }
    }

    /// The amount 1.
    pub fn one() -> (r: Positive)
        ensures
            r@ == SCALE,
    {
        Positive { units: 100_000_000 }
    }

    /// The amount 2.
    pub fn two() -> (r: Positive)
        ensures
            r@ == 2 * SCALE,
    {
        Positive { units: 200_000_000 }
    }

    /// The amount 100.
    pub fn hundred() -> (r: Positive)
        ensures
            r@ == 100 * SCALE,
    {
        Positive { units: 10_000_000_000 }
    }

    /// The same amount without the promise that it is not negative.
    pub fn to_amount(&self) -> (r: Amount)
        ensures
            r@ == self@,
    {
        Amount { units: self.units as i128 }
    }

    /// Whether this is the amount 0.
    pub fn is_zero(&self) -> (r: bool)
        ensures
            r <==> self@ == 0,
    {
        self.units == 0
    }

    /// The larger of two amounts.
    pub fn max(self, other: Positive) -> (r: Positive)
        ensures
            r@ == if self@ >= other@ { self@ } else { other@ },
    {
        if self >= other {
            self
        } else {
            other
        }
    }

    /// The smaller of two amounts.
    pub fn min(self, other: Positive) -> (r: Positive)
        ensures
            r@ == if self@ <= other@ { self@ } else { other@ },
    {
        if self <= other {
            self
        } else {
            other
        }
    }

    /// The sum of two amounts, where 64 bits of units can hold it.
    pub fn checked_add(&self, other: &Positive) -> (r: Option<Positive>)
        ensures
            self@ + other@ <= u64::MAX ==> r is Some && r.unwrap()@ == self@ + other@,
            self@ + other@ > u64::MAX ==> r is None,
    {
        match self.units.checked_add(other.units) {
            Some(units) => Some(Positive { units }),
            None => None,
        }
    }

    /// This amount less `other`, which may be negative: the difference is an
    /// [`Amount`].
    pub fn minus(&self, other: &Positive) -> (r: Amount)
        ensures
            r@ == self@ - other@,
    {
        Amount { units: self.units as i128 - other.units as i128 }
    }

    /// This amount less `other`, or zero where `other` is the larger.
    pub fn saturating_sub(&self, other: &Positive) -> (r: Positive)
        ensures
            r@ == if self@ >= other@ { self@ - other@ } else { 0 },
    {
        if *self >= *other {
            Positive { units: self.units - other.units }
        } else {
            Positive { units: 0 }
        }
    }
}

} // verus!
