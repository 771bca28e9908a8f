//! Logarithm, exponential and power, which `rust_decimal` computes.
//!
//! A decimal number crosses this boundary as its two parts, mantissa and
//! scale. What `rust_decimal` returns is taken on trust and given a name:
//! [`decimal_ln`], [`decimal_exp`], [`decimal_powu`]. Nothing is claimed of
//! how close these come to the functions of analysis. Everything that is done
//! with a result afterwards, rounding it to an amount or to a logarithm, is
//! verified.

use crate::amount::{units_of_amount, Amount, SCALE_DIGITS};
use crate::positive::Positive;
use crate::scaling::{
    lemma_pow10_monotonic, lemma_pow10_values, lemma_round_div_bound, pow10, pow10_u128, rescale,
    round_div_i128,
};
use rust_decimal::Decimal;
use rust_decimal::MathematicalOps;
use vstd::prelude::*;

verus! {

/// Largest magnitude of a decimal's mantissa: 96 bits.
pub const MAX_MANTISSA: i128 = 0xFFFF_FFFF_FFFF_FFFF_FFFF_FFFF;

/// Largest scale of a decimal.
pub const MAX_SCALE: u32 = 28;

/// The decimal number `mantissa * 10^-scale`.
#[derive(Clone, Copy, Debug, PartialEq, Eq, Structural)]
pub struct DecimalParts {
    pub mantissa: i128,
    pub scale: u32,
}

/// Whether `mantissa * 10^-scale` is a number that `rust_decimal` can hold.
pub open spec fn representable(mantissa: int, scale: nat) -> bool {
    -MAX_MANTISSA <= mantissa <= MAX_MANTISSA && scale <= MAX_SCALE
}

/// Number of decimal places that a logarithm carries.
pub const LOG_DIGITS: u32 = 16;

/// Largest magnitude of a logarithm, in units of 10^-16: the logarithm 100.
/// The logarithm of every decimal that `rust_decimal` can hold is well
/// within it.
pub const LOG_LIMIT: i128 = 1_000_000_000_000_000_000;

/// The decimal `mantissa * 10^-scale` counted in units of `10^-digits` and
/// rounded to the nearest unit. There is no count where the decimal is not
/// representable, where `digits` is more than a decimal's scale can be, or
/// where 128 bits cannot hold the count.
pub open spec fn units_of(mantissa: int, scale: nat, digits: nat) -> Option<int> {
    let u = rescale(mantissa, scale, digits);
    if representable(mantissa, scale) && digits <= MAX_SCALE && i128::MIN <= u <= i128::MAX {
        Some(u)
    } else {
        None
    }
}

/// A decimal as an amount: its count in units of 10^-8.
pub open spec fn amount_of(d: Option<(int, nat)>) -> Option<int> {
    match d {
        Some((mantissa, scale)) => units_of(mantissa, scale, SCALE_DIGITS as nat),
        None => None,
    }
}

/// A decimal as a logarithm: its count in units of 10^-16, where that lies
/// within [`LOG_LIMIT`].
pub open spec fn log_of(d: Option<(int, nat)>) -> Option<int> {
    match d {
        Some((mantissa, scale)) => match units_of(mantissa, scale, LOG_DIGITS as nat) {
            Some(u) => if -LOG_LIMIT <= u <= LOG_LIMIT {
                Some(u)
            } else {
                None
            },
            None => None,
        },
        None => None,
    }
}

/// The natural logarithm of the price of `price` units of 10^-8, in units of
/// 10^-16.
pub open spec fn ln_value(price: int) -> Option<int> {
    log_of(decimal_ln(price, SCALE_DIGITS as nat))
}

/// The exponential of the logarithm of `log` units of 10^-16, in units of
/// 10^-8.
pub open spec fn exp_value(log: int) -> Option<int> {
    if representable(log, LOG_DIGITS as nat) {
        amount_of(decimal_exp(log, LOG_DIGITS as nat))
    } else {
        None
    }
}

/// The power of the base of `base` units of 10^-8 to the whole exponent
/// `exponent`, in units of 10^-8.
pub open spec fn powu_value(base: int, exponent: nat) -> Option<int> {
    amount_of(decimal_powu(base, SCALE_DIGITS as nat, exponent))
}

/// The parts of an optional decimal as plain numbers.
pub open spec fn parts_of(d: Option<DecimalParts>) -> Option<(int, nat)> {
    match d {
        Some(p) => Some((p.mantissa as int, p.scale as nat)),
        None => None,
    }
}

/// The natural logarithm of `mantissa * 10^-scale` as `rust_decimal`
/// computes it, or `None` where it computes none.
pub uninterp spec fn decimal_ln(mantissa: int, scale: nat) -> Option<(int, nat)>;

/// The exponential of `mantissa * 10^-scale` as `rust_decimal` computes it,
/// or `None` where it computes none.
pub uninterp spec fn decimal_exp(mantissa: int, scale: nat) -> Option<(int, nat)>;

/// The power of `mantissa * 10^-scale` to the whole exponent `exponent` as
/// `rust_decimal` computes it, or `None` where it computes none.
pub uninterp spec fn decimal_powu(mantissa: int, scale: nat, exponent: nat) -> Option<(int, nat)>;

/// Calls `rust_decimal::MathematicalOps::checked_ln`.
///
/// Trusted: the result is a function of the argument alone, named
/// [`decimal_ln`], and a decimal that comes back has a mantissa of at most 96
/// bits and a scale of at most 28.
#[verifier::external_body]
fn checked_ln(x: DecimalParts) -> (r: Option<DecimalParts>)
    requires
        representable(x.mantissa as int, x.scale as nat),
    ensures
        parts_of(r) == decimal_ln(x.mantissa as int, x.scale as nat),
        r is Some ==> representable(r.unwrap().mantissa as int, r.unwrap().scale as nat),
{
    match Decimal::from_i128_with_scale(x.mantissa, x.scale).checked_ln() {
        Some(d) => Some(DecimalParts { mantissa: d.mantissa(), scale: d.scale() }),
        None => None,
    }
}

/// Calls `rust_decimal::MathematicalOps::checked_exp`.
///
/// Trusted: the result is a function of the argument alone, named
/// [`decimal_exp`], and a decimal that comes back has a mantissa of at most
/// 96 bits and a scale of at most 28.
#[verifier::external_body]
fn checked_exp(x: DecimalParts) -> (r: Option<DecimalParts>)
    requires
        representable(x.mantissa as int, x.scale as nat),
    ensures
        parts_of(r) == decimal_exp(x.mantissa as int, x.scale as nat),
        r is Some ==> representable(r.unwrap().mantissa as int, r.unwrap().scale as nat),
{
    match Decimal::from_i128_with_scale(x.mantissa, x.scale).checked_exp() {
        Some(d) => Some(DecimalParts { mantissa: d.mantissa(), scale: d.scale() }),
        None => None,
    }
}

/// Calls `rust_decimal::MathematicalOps::checked_powu`.
///
/// Trusted: the result is a function of the two arguments alone, named
/// [`decimal_powu`], and a decimal that comes back has a mantissa of at most
/// 96 bits and a scale of at most 28.
#[verifier::external_body]
fn checked_powu(base: DecimalParts, exponent: u64) -> (r: Option<DecimalParts>)
    requires
        representable(base.mantissa as int, base.scale as nat),
    ensures
        parts_of(r) == decimal_powu(base.mantissa as int, base.scale as nat, exponent as nat),
        r is Some ==> representable(r.unwrap().mantissa as int, r.unwrap().scale as nat),
{
    match Decimal::from_i128_with_scale(base.mantissa, base.scale).checked_powu(exponent) {
        Some(d) => Some(DecimalParts { mantissa: d.mantissa(), scale: d.scale() }),
        None => None,
    }
}

impl DecimalParts {
    /// Whether `rust_decimal` can hold this number.
    pub open spec fn valid(&self) -> bool {
        representable(self.mantissa as int, self.scale as nat)
    }

    /// Whether `rust_decimal` can hold this number.
    pub fn is_valid(&self) -> (r: bool)
        ensures
            r == self.valid(),
    {
        -MAX_MANTISSA <= self.mantissa && self.mantissa <= MAX_MANTISSA && self.scale <= MAX_SCALE
    }

    /// This number counted in units of `10^-digits`, rounded to the nearest
    /// unit.
    pub fn rescaled(&self, digits: u32) -> (r: Option<i128>)
        ensures
            r is Some <==> units_of(self.mantissa as int, self.scale as nat, digits as nat) is Some,
            r is Some ==> r.unwrap() == units_of(
                self.mantissa as int,
                self.scale as nat,
                digits as nat,
            ).unwrap(),
    {
        if !self.is_valid() || digits > MAX_SCALE {
            return None;
        }
        if self.scale <= digits {
            let factor: u128 = pow10_u128(digits - self.scale);
            proof {
                lemma_pow10_monotonic((digits - self.scale) as nat, 28);
                lemma_pow10_values();
            }
            self.mantissa.checked_mul(factor as i128)
        } else {
            let p: u128 = pow10_u128(self.scale - digits);
            proof {
                lemma_pow10_monotonic((self.scale - digits) as nat, 28);
                lemma_pow10_values();
                lemma_round_div_bound(self.mantissa as int, p as int);
            }
            Some(round_div_i128(self.mantissa, p))
        }
    }
}

/// Every decimal that `rust_decimal` can hold has a count in units of 10^-8
/// that 128 bits can hold.
pub proof fn lemma_amount_of_representable(mantissa: int, scale: nat)
    requires
        representable(mantissa, scale),
    ensures
        units_of(mantissa, scale, SCALE_DIGITS as nat) == Some(
            rescale(mantissa, scale, SCALE_DIGITS as nat),
        ),
        -MAX_MANTISSA * 100_000_000 <= rescale(mantissa, scale, SCALE_DIGITS as nat)
            <= MAX_MANTISSA * 100_000_000,
{
    lemma_pow10_values();
    if scale <= 8 {
        let f = pow10((8 - scale) as nat) as int;
        lemma_pow10_monotonic((8 - scale) as nat, 8);
        assert(-MAX_MANTISSA * 100_000_000 <= mantissa * f <= MAX_MANTISSA * 100_000_000)
            by (nonlinear_arith)
            requires
                -MAX_MANTISSA <= mantissa <= MAX_MANTISSA,
                0 < f <= 100_000_000,
        ;
    } else {
        lemma_pow10_monotonic((scale - 8) as nat, 28);
        lemma_round_div_bound(mantissa, pow10((scale - 8) as nat) as int);
    }
}

/// The amount that a decimal stands for, rounded to eight decimal places.
/// There is one for every decimal that `rust_decimal` can hold.
pub fn amount_from_decimal(d: Option<DecimalParts>) -> (r: Option<Amount>)
    ensures
        units_of_amount(r) == amount_of(parts_of(d)),
        r is Some <==> d is Some && d.unwrap().valid(),
{
    match d {
        Some(parts) => {
            proof {
                if parts.valid() {
                    lemma_amount_of_representable(parts.mantissa as int, parts.scale as nat);
                }
            }
            match parts.rescaled(SCALE_DIGITS) {
                Some(units) => Some(Amount { units }),
                None => None,
            }
        },
        None => None,
    }
}

/// The logarithm that a decimal stands for, in units of 10^-16, where it
/// lies within [`LOG_LIMIT`].
pub fn log_from_decimal(d: Option<DecimalParts>) -> (r: Option<i128>)
    ensures
        r is Some <==> log_of(parts_of(d)) is Some,
        r is Some ==> r.unwrap() == log_of(parts_of(d)).unwrap(),
        r is Some ==> -LOG_LIMIT <= r.unwrap() <= LOG_LIMIT,
{
    match d {
        Some(parts) => match parts.rescaled(LOG_DIGITS) {
            Some(units) => if -LOG_LIMIT <= units && units <= LOG_LIMIT {
                Some(units)
            } else {
                None
            },
            None => None,
        },
        None => None,
    }
}

/// The natural logarithm of a price, in units of 10^-16.
pub fn natural_log(price: Positive) -> (r: Option<i128>)
    ensures
        r is Some <==> ln_value(price@) is Some,
        r is Some ==> r.unwrap() == ln_value(price@).unwrap(),
        r is Some ==> -LOG_LIMIT <= r.unwrap() <= LOG_LIMIT,
{
    let x = DecimalParts { mantissa: price.units as i128, scale: SCALE_DIGITS };
    log_from_decimal(checked_ln(x))
}

/// The exponential of a logarithm given in units of 10^-16. There is none
/// for a logarithm beyond what a decimal holds.
pub fn exponential(log: i128) -> (r: Option<Amount>)
    ensures
        units_of_amount(r) == exp_value(log as int),
{
    let x = DecimalParts { mantissa: log, scale: LOG_DIGITS };
    if x.is_valid() {
        amount_from_decimal(checked_exp(x))
    } else {
        None
    }
}

/// The power of a price to a whole exponent.
pub fn whole_power(base: Positive, exponent: u64) -> (r: Option<Amount>)
    ensures
        units_of_amount(r) == powu_value(base@, exponent as nat),
{
    let b = DecimalParts { mantissa: base.units as i128, scale: SCALE_DIGITS };
    amount_from_decimal(checked_powu(b, exponent))
}

} // verus!
