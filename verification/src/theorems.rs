//! What holds of every payoff, proved from the formulas.

use crate::amount::{Amount, SCALE};
use crate::average::{arithmetic_mean, price_sum};
use crate::payoff::{
    asian_value, chooser_value, intrinsic_value, payoff_value, quanto_value, standard_value,
    PayoffInfo, Scenario,
};
use crate::scaling::{lemma_round_div_bound, round_div};
use crate::types::{AsianAveragingType, Contract, LookbackType, OptionStyle, OptionType};
use vstd::prelude::*;

verus! {

/// Whether the contract pays the standard formula whatever its other terms
/// are: the vanilla kinds, the lookback with a fixed strike, and the kinds
/// whose further terms no formula reads yet.
pub open spec fn pays_standard(contract: Contract) -> bool {
    match contract {
        Contract::European | Contract::American => true,
        Contract::Bermuda { .. } => true,
        Contract::Asian { .. } => false,
        Contract::Barrier { .. } => false,
        Contract::Binary { .. } => false,
        Contract::Lookback { lookback_type } => lookback_type == LookbackType::FixedStrike,
        Contract::Compound { .. } => false,
        Contract::Chooser { .. } => false,
        Contract::Cliquet { .. } => true,
        Contract::Rainbow { .. } | Contract::Spread { .. } | Contract::Exchange { .. } => true,
        Contract::Quanto { .. } => false,
        Contract::Power { .. } => false,
    }
}

/// Whether a lookback with a floating strike is what the contract comes down
/// to, directly or underneath compound options.
pub open spec fn floats_strike(contract: Contract) -> bool
    decreases contract,
{
    match contract {
        Contract::Lookback { lookback_type } => lookback_type == LookbackType::FloatingStrike,
        Contract::Compound { underlying_option } => floats_strike(*underlying_option),
        _ => false,
    }
}

/// Whether no amount among the terms of the contract is negative, as holds of
/// the view of every [`OptionType`].
pub open spec fn terms_not_negative(contract: Contract) -> bool
    decreases contract,
{
    match contract {
        Contract::Barrier { barrier_level, rebate, .. } => barrier_level >= 0 && (rebate is Some
            ==> rebate.unwrap() >= 0),
        Contract::Compound { underlying_option } => terms_not_negative(*underlying_option),
        Contract::Quanto { exchange_rate } => exchange_rate >= 0,
        Contract::Power { exponent } => exponent >= 0,
        _ => true,
    }
}

/// A contract that pays the standard formula pays, as a call, the spot less
/// the strike where the spot is above the strike and nothing where it is
/// not; as a put, the strike less the spot where the spot is below the strike
/// and nothing where it is not.
pub proof fn standard_contracts_pay_intrinsic_value(contract: Contract, s: Scenario)
    requires
        pays_standard(contract),
    ensures
        s.style == OptionStyle::Call && s.spot > s.strike ==> payoff_value(contract, s) == s.spot
            - s.strike,
        s.style == OptionStyle::Call && s.spot <= s.strike ==> payoff_value(contract, s) == 0,
        s.style == OptionStyle::Put && s.spot < s.strike ==> payoff_value(contract, s) == s.strike
            - s.spot,
        s.style == OptionStyle::Put && s.spot >= s.strike ==> payoff_value(contract, s) == 0,
{
}

/// An Asian option pays nothing in a scenario without a path, and nothing on
/// an empty path, whatever its averaging, style, strike and spot are.
pub proof fn asian_without_path_pays_nothing(averaging_type: AsianAveragingType, s: Scenario)
    requires
        s.spot_prices is None || s.spot_prices.unwrap().len() == 0,
    ensures
        asian_value(averaging_type, s) == 0,
        payoff_value(Contract::Asian { averaging_type }, s) == 0,
{
}

/// A compound option pays what the option underneath pays.
pub proof fn compound_pays_as_underlying(underlying: Contract, s: Scenario)
    ensures
        payoff_value(Contract::Compound { underlying_option: Box::new(underlying) }, s)
            == payoff_value(underlying, s),
{
}

/// A chooser option pays the distance between spot and strike.
pub proof fn chooser_pays_distance(s: Scenario)
    ensures
        chooser_value(s) == if s.spot >= s.strike {
            s.spot - s.strike
        } else {
            s.strike - s.spot
        },
{
}

/// At the exchange rate 1 a quanto option pays the standard payoff, and at
/// the rate 0 it pays nothing.
pub proof fn quanto_at_par_and_at_zero(s: Scenario)
    ensures
        quanto_value(SCALE as int, s) == standard_value(s),
        quanto_value(0, s) == 0,
{
    let v = standard_value(s);
    assert((v * 100_000_000) / 100_000_000 == v && (v * 100_000_000) % 100_000_000 == 0)
        by (nonlinear_arith)
        requires
            v >= 0,
    ;
    assert(v * 0 == 0);
}

/// A power option with the exponent 1 pays the standard payoff. With the
/// exponent 0 it pays the intrinsic value at a spot of 1, and with the
/// exponent 2 the intrinsic value at the square of the spot, rounded to the
/// nearest unit. None of the three rests on `rust_decimal`.
pub proof fn power_with_small_exponent(s: Scenario)
    requires
        s.spot >= 0,
    ensures
        payoff_value(Contract::Power { exponent: SCALE as int }, s) == standard_value(s),
        payoff_value(Contract::Power { exponent: 0 }, s) == intrinsic_value(
            s.style,
            SCALE as int,
            s.strike,
        ),
        payoff_value(Contract::Power { exponent: 2 * SCALE }, s) == intrinsic_value(
            s.style,
            round_div(s.spot * s.spot, SCALE as int),
            s.strike,
        ),
{
    assert(s.spot * s.spot >= 0) by (nonlinear_arith);
    lemma_round_div_bound(s.spot * s.spot, SCALE as int);
    if s.spot == 0 {
        assert(s.spot * s.spot == 0);
    }
}

/// The sum of `n` prices that lie between `low` and `high` lies between `n`
/// times `low` and `n` times `high`.
proof fn lemma_price_sum_between(prices: Seq<int>, low: int, high: int)
    requires
        forall|i: int| 0 <= i < prices.len() ==> low <= #[trigger] prices[i] <= high,
    ensures
        prices.len() * low <= price_sum(prices) <= prices.len() * high,
    decreases prices.len(),
{
    if prices.len() > 0 {
        lemma_price_sum_between(prices.drop_last(), low, high);
        assert((prices.len() - 1) * low + low == prices.len() * low) by (nonlinear_arith);
        assert((prices.len() - 1) * high + high == prices.len() * high) by (nonlinear_arith);
    }
}

/// The arithmetic mean of prices lies between the lowest and the highest of
/// them: where every price of a path lies between `low` and `high`, so does
/// the mean.
pub proof fn arithmetic_mean_is_between_extremes(prices: Seq<int>, low: int, high: int)
    requires
        prices.len() > 0,
        0 <= low,
        forall|i: int| 0 <= i < prices.len() ==> low <= #[trigger] prices[i] <= high,
    ensures
        arithmetic_mean(prices) is Some,
        low <= arithmetic_mean(prices).unwrap() <= high,
{
    let n = prices.len() as int;
    let sum = price_sum(prices);
    lemma_price_sum_between(prices, low, high);
    assert(low <= prices[0] <= high);
    assert(0 <= n * low) by (nonlinear_arith)
        requires
            n > 0,
            low >= 0,
    ;
    let q = sum / n;
    let r = sum % n;
    assert(low <= q <= high && (q == high ==> r == 0)) by (nonlinear_arith)
        requires
            n > 0,
            0 <= n * low <= sum <= n * high,
            q == sum / n,
            r == sum % n,
    {
        assert(sum == n * q + r);
        assert(0 <= r < n);
        if q > high {
            assert(n * q >= n * (high + 1));
        }
        if q < low {
            assert(n * q <= n * (low - 1));
        }
        if q == high {
            assert(n * q == n * high);
        }
    }
    assert(round_div(sum, n) == if 2 * r >= n {
        q + 1
    } else {
        q
    });
}

/// The payoff is a function of the numbers in the contract and in the
/// scenario, and of nothing else: two evaluations on contracts with the same
/// terms and scenarios with the same data return the same amount.
///
/// `x` and `y` stand for what two calls of [`OptionType::payoff`] return,
/// which is all that its contract lets them be.
pub proof fn payoff_is_deterministic(
    first_option: OptionType,
    first_info: PayoffInfo,
    second_option: OptionType,
    second_info: PayoffInfo,
    x: Amount,
    y: Amount,
)
    requires
        first_option@ == second_option@,
        first_info@ == second_info@,
        x@ == payoff_value(first_option@, first_info@),
        y@ == payoff_value(second_option@, second_info@),
    ensures
        x == y,
{
}

/// No payoff is negative but that of a lookback with a floating strike,
/// where no amount in the contract is negative and the spot is not.
pub proof fn payoff_is_not_negative(contract: Contract, s: Scenario)
    requires
        !floats_strike(contract),
        terms_not_negative(contract),
        s.spot >= 0,
    ensures
        payoff_value(contract, s) >= 0,
    decreases contract,
{
    match contract {
        Contract::Compound { underlying_option } => {
            payoff_is_not_negative(*underlying_option, s);
        },
        Contract::Quanto { exchange_rate } => {
            assert(standard_value(s) * exchange_rate >= 0) by (nonlinear_arith)
                requires
                    standard_value(s) >= 0,
                    exchange_rate >= 0,
            ;
            lemma_round_div_bound(standard_value(s) * exchange_rate, 100_000_000);
        },
        _ => {},
    }
}

/// No amount among the terms of an [`OptionType`] is negative.
pub proof fn option_terms_are_not_negative(option: OptionType)
    ensures
        terms_not_negative(option@),
    decreases option,
{
    match option {
        OptionType::Compound { underlying_option } => {
            option_terms_are_not_negative(*underlying_option);
        },
        _ => {},
    }
}

/// What [`OptionType::payoff`] returns is negative for no contract but a
/// lookback with a floating strike, in no scenario.
pub proof fn payoff_of_option_is_not_negative(option: OptionType, info: PayoffInfo)
    requires
        !floats_strike(option@),
    ensures
        payoff_value(option@, info@) >= 0,
{
    option_terms_are_not_negative(option);
    payoff_is_not_negative(option@, info@);
}

} // verus!
