//! The power of a price to an exponent that is not negative.

use crate::amount::{units_of_amount, Amount, SCALE};
use crate::decimal::{
    exp_value, exponential, ln_value, natural_log, powu_value, whole_power, LOG_LIMIT,
};
use crate::positive::Positive;
use crate::scaling::{round_div, round_div_i128, round_div_u128};
use vstd::prelude::*;

verus! {

/// The power of the base of `base` units to the exponent of `exponent` units,
/// both counted in units of 10^-8 and neither negative, as an amount in units
/// of 10^-8.
///
/// Any base to the exponent 0 is 1, and zero to any other exponent is
/// zero. The exponents 1 and 2 are exact: the base itself, and its square
/// rounded to the nearest unit. A larger whole exponent is left to
/// `rust_decimal`, which multiplies. With any other exponent the power is the
/// exponential of the exponent times the logarithm of the base. There is no
/// power where `rust_decimal` returns none.
pub open spec fn pow_value(base: int, exponent: int) -> Option<int> {
    if exponent == 0 {
        Some(SCALE as int)
    } else if base == 0 {
        Some(0)
    } else if exponent == SCALE {
        Some(base)
    } else if exponent == 2 * SCALE {
        Some(round_div(base * base, SCALE as int))
    } else if exponent % (SCALE as int) == 0 {
        powu_value(base, (exponent / (SCALE as int)) as nat)
    } else {
        match ln_value(base) {
            Some(log) => exp_value(round_div(log * exponent, SCALE as int)),
            None => None,
        }
    }
}

/// The power of a base to an exponent.
pub fn power(base: Positive, exponent: Positive) -> (r: Option<Amount>)
    ensures
        units_of_amount(r) == pow_value(base@, exponent@),
{
    if exponent.is_zero() {
        return Some(Amount::one());
    }
    if base.is_zero() {
        return Some(Amount::zero());
    }
    let whole: u64 = exponent.units / SCALE;
    let fraction: u64 = exponent.units % SCALE;
    if fraction == 0 {
        if whole == 1 {
            Some(base.to_amount())
        } else if whole == 2 {
            assert(base.units * base.units <= 0xFFFF_FFFF_FFFF_FFFF * 0xFFFF_FFFF_FFFF_FFFF)
                by (nonlinear_arith)
                requires
                    0 <= base.units <= 0xFFFF_FFFF_FFFF_FFFF,
            ;
            assert(0 <= base.units * base.units) by (nonlinear_arith);
            let square: u128 = (base.units as u128) * (base.units as u128);
            let rounded: u128 = round_div_u128(square, SCALE as u128);
            Some(Amount { units: rounded as i128 })
        } else {
            whole_power(base, whole)
        }
    } else {
        match natural_log(base) {
            Some(log) => {
                assert(-(LOG_LIMIT * 0xFFFF_FFFF_FFFF_FFFF) <= log * exponent.units <= LOG_LIMIT
                    * 0xFFFF_FFFF_FFFF_FFFF) by (nonlinear_arith)
                    requires
                        -LOG_LIMIT <= log <= LOG_LIMIT,
                        0 <= exponent.units <= 0xFFFF_FFFF_FFFF_FFFF,
                        LOG_LIMIT > 0,
                ;
                let product: i128 = log * (exponent.units as i128);
                exponential(round_div_i128(product, SCALE as u128))
            },
            None => None,
        }
    }
}

} // verus!
