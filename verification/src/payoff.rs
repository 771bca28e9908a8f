//! The payoff of an option contract in a market scenario.
//!
//! Every formula is stated twice: as a spec function on plain numbers, which
//! is what a payoff means, and as an executable function that is proved to
//! compute it. No function here fails: where a formula needs data that the
//! scenario does not hold, the payoff is zero.

use crate::amount::{units_of_amount, Amount, SCALE};
use crate::average::{arithmetic_mean, arithmetic_mean_of, geometric_mean, geometric_mean_of};
use crate::positive::{units_opt, units_seq, Positive};
use crate::power::{pow_value, power};
use crate::scaling::{round_div, round_div_u128};
use crate::types::{
    AsianAveragingType, BarrierType, BinaryType, Contract, LookbackType, OptionStyle, OptionType,
    Side,
};
use vstd::prelude::*;

verus! {

/// A market scenario: what is known of the underlying asset when the payoff
/// is taken.
#[derive(Debug, PartialEq, Eq)]
pub struct PayoffInfo {
    /// The price of the underlying asset.
    pub spot: Positive,
    /// The strike of the contract.
    pub strike: Positive,
    /// Whether the contract is a call or a put.
    pub style: OptionStyle,
    /// The side of the position. No payoff depends on it.
    pub side: Side,
    /// The prices sampled along the path, in the order in which they were
    /// seen.
    pub spot_prices: Option<Vec<Positive>>,
    /// The lowest price seen along the path.
    pub spot_min: Option<Positive>,
    /// The highest price seen along the path.
    pub spot_max: Option<Positive>,
}

/// A market scenario in plain numbers, each amount in units of 10^-8.
pub struct Scenario {
    pub spot: int,
    pub strike: int,
    pub style: OptionStyle,
    pub side: Side,
    pub spot_prices: Option<Seq<int>>,
    pub spot_min: Option<int>,
    pub spot_max: Option<int>,
}

impl View for PayoffInfo {
    type V = Scenario;

    open spec fn view(&self) -> Scenario {
        Scenario {
            spot: self.spot@,
            strike: self.strike@,
            style: self.style,
            side: self.side,
            spot_prices: match self.spot_prices {
                Some(prices) => Some(units_seq(prices@)),
                None => None,
            },
            spot_min: units_opt(self.spot_min),
            spot_max: units_opt(self.spot_max),
        }
    }
}

impl Clone for PayoffInfo {
    /// A scenario with the same data.
    fn clone(&self) -> (r: PayoffInfo)
        ensures
            r@ == self@,
    {
        let spot_prices: Option<Vec<Positive>> = match &self.spot_prices {
            Some(prices) => {
                let copy: Vec<Positive> = prices.clone();
                assert(units_seq(copy@) =~= units_seq(prices@));
                Some(copy)
            },
            None => None,
        };
        PayoffInfo {
            spot: self.spot,
            strike: self.strike,
            style: self.style,
            side: self.side,
            spot_prices,
            spot_min: self.spot_min,
            spot_max: self.spot_max,
        }
    }
}

impl Default for PayoffInfo {
    /// A long call with spot and strike at zero and no path.
    fn default() -> (r: PayoffInfo)
        ensures
            r@ == (Scenario {
                spot: 0,
                strike: 0,
                style: OptionStyle::Call,
                side: Side::Long,
                spot_prices: None,
                spot_min: None,
                spot_max: None,
            }),
    {
        PayoffInfo {
            spot: Positive::zero(),
            strike: Positive::zero(),
            style: OptionStyle::Call,
            side: Side::Long,
            spot_prices: None,
            spot_min: None,
            spot_max: None,
        }
    }
}

impl PayoffInfo {
    /// The number of prices sampled along the path, where there is a path.
    pub fn spot_prices_len(&self) -> (r: Option<usize>)
        ensures
            r is Some <==> self@.spot_prices is Some,
            r is Some ==> r.unwrap() == self@.spot_prices.unwrap().len(),
    {
        match &self.spot_prices {
            Some(prices) => Some(prices.len()),
            None => None,
        }
    }
}

/// `x`, or zero where `x` is negative.
pub open spec fn at_least_zero(x: int) -> int {
    if x > 0 {
        x
    } else {
        0
    }
}

/// What exercising at `strike` is worth with the asset at `spot`: for a call
/// `max(spot - strike, 0)`, for a put `max(strike - spot, 0)`.
pub open spec fn intrinsic_value(style: OptionStyle, spot: int, strike: int) -> int {
    match style {
        OptionStyle::Call => at_least_zero(spot - strike),
        OptionStyle::Put => at_least_zero(strike - spot),
    }
}

/// The standard payoff: the intrinsic value at the scenario's spot.
pub open spec fn standard_value(s: Scenario) -> int {
    intrinsic_value(s.style, s.spot, s.strike)
}

/// The average of the sampled prices, where the scenario holds a path that
/// has one.
pub open spec fn average_price(averaging_type: AsianAveragingType, prices: Option<Seq<int>>)
    -> Option<int> {
    match prices {
        Some(p) => match averaging_type {
            AsianAveragingType::Arithmetic => arithmetic_mean(p),
            AsianAveragingType::Geometric => geometric_mean(p),
        },
        None => None,
    }
}

/// The intrinsic value with an average in the place of the spot, or zero
/// where there is no average.
pub open spec fn average_value(style: OptionStyle, strike: int, average: Option<int>) -> int {
    match average {
        Some(a) => intrinsic_value(style, a, strike),
        None => 0,
    }
}

/// The payoff of an Asian option.
pub open spec fn asian_value(averaging_type: AsianAveragingType, s: Scenario) -> int {
    average_value(s.style, s.strike, average_price(averaging_type, s.spot_prices))
}

/// Whether the price has reached the barrier: the highest price seen is at
/// or above an upper barrier, the lowest at or below a lower one. The spot
/// stands in for an extremum that the scenario does not hold.
pub open spec fn barrier_condition(barrier_type: BarrierType, level: int, s: Scenario) -> bool {
    match barrier_type {
        BarrierType::UpAndIn | BarrierType::UpAndOut => (match s.spot_max {
            Some(m) => m,
            None => s.spot,
        }) >= level,
        BarrierType::DownAndIn | BarrierType::DownAndOut => (match s.spot_min {
            Some(m) => m,
            None => s.spot,
        }) <= level,
    }
}

/// The payoff of a barrier option. A knock-in pays the standard payoff once
/// the barrier is reached and nothing before. A knock-out pays the standard
/// payoff until the barrier is reached and the rebate after, which is zero
/// where none is set.
pub open spec fn barrier_value(
    barrier_type: BarrierType,
    level: int,
    rebate: Option<int>,
    s: Scenario,
) -> int {
    let reached = barrier_condition(barrier_type, level, s);
    match barrier_type {
        BarrierType::UpAndIn | BarrierType::DownAndIn => if reached {
            standard_value(s)
        } else {
            0
        },
        BarrierType::UpAndOut | BarrierType::DownAndOut => if reached {
            match rebate {
                Some(r) => r,
                None => 0,
            }
        } else {
            standard_value(s)
        },
    }
}

/// Whether the option is in the money: spot above strike for a call, below
/// it for a put.
pub open spec fn in_the_money(s: Scenario) -> bool {
    match s.style {
        OptionStyle::Call => s.spot > s.strike,
        OptionStyle::Put => s.spot < s.strike,
    }
}

/// The payoff of a binary option: nothing out of the money; in the money the
/// amount 1, the spot, or the distance between spot and strike.
pub open spec fn binary_value(binary_type: BinaryType, s: Scenario) -> int {
    if in_the_money(s) {
        match binary_type {
            BinaryType::CashOrNothing => SCALE as int,
            BinaryType::AssetOrNothing => s.spot,
            BinaryType::Gap => if s.spot >= s.strike {
                s.spot - s.strike
            } else {
                s.strike - s.spot
            },
        }
    } else {
        0
    }
}

/// The payoff of a lookback option with a floating strike: for a call the
/// spot less the lowest price seen, for a put the highest price seen less the
/// spot. An extremum that the scenario does not hold counts as zero. The
/// payoff is not held at zero: it is negative where the extremum is on the
/// wrong side of the spot.
pub open spec fn floating_strike_value(s: Scenario) -> int {
    match s.style {
        OptionStyle::Call => s.spot - (match s.spot_min {
            Some(m) => m,
            None => 0,
        }),
        OptionStyle::Put => (match s.spot_max {
            Some(m) => m,
            None => 0,
        }) - s.spot,
    }
}

/// The payoff of a chooser option: the larger of the call's and the put's
/// intrinsic value.
pub open spec fn chooser_value(s: Scenario) -> int {
    let call = intrinsic_value(OptionStyle::Call, s.spot, s.strike);
    let put = intrinsic_value(OptionStyle::Put, s.spot, s.strike);
    if call >= put {
        call
    } else {
        put
    }
}

/// The payoff of a quanto option: the standard payoff times the exchange
/// rate, rounded to the nearest unit.
pub open spec fn quanto_value(exchange_rate: int, s: Scenario) -> int {
    round_div(standard_value(s) * exchange_rate, SCALE as int)
}

/// The payoff of a power option, given the power of the spot: the intrinsic
/// value with the power in the place of the spot. Where there is no power,
/// or a negative one, which is no power of a price, the payoff is zero.
pub open spec fn power_value(style: OptionStyle, strike: int, powered: Option<int>) -> int {
    match powered {
        Some(p) => if p >= 0 {
            intrinsic_value(style, p, strike)
        } else {
            0
        },
        None => 0,
    }
}

/// The payoff of the contract `contract` in the scenario `s`.
///
/// Every kind of contract has its own arm. Bermuda, cliquet, rainbow, spread
/// and exchange options pay the standard payoff: what else their terms hold
/// (exercise and reset dates, the number of assets, the second asset) is
/// not read, since a scenario holds one asset and keeps no reset levels. A
/// chooser pays the same whatever its day of choice.
pub open spec fn payoff_value(contract: Contract, s: Scenario) -> int
    decreases contract,
{
    match contract {
        Contract::European | Contract::American => standard_value(s),
        Contract::Bermuda { .. } => standard_value(s),
        Contract::Asian { averaging_type } => asian_value(averaging_type, s),
        Contract::Barrier { barrier_type, barrier_level, rebate } => barrier_value(
            barrier_type,
            barrier_level,
            rebate,
            s,
        ),
        Contract::Binary { binary_type } => binary_value(binary_type, s),
        Contract::Lookback { lookback_type } => match lookback_type {
            LookbackType::FixedStrike => standard_value(s),
            LookbackType::FloatingStrike => floating_strike_value(s),
        },
        Contract::Compound { underlying_option } => payoff_value(*underlying_option, s),
        Contract::Chooser { .. } => chooser_value(s),
        Contract::Cliquet { .. } => standard_value(s),
        Contract::Rainbow { .. } | Contract::Spread { .. } | Contract::Exchange { .. } =>
            standard_value(s),
        Contract::Quanto { exchange_rate } => quanto_value(exchange_rate, s),
        Contract::Power { exponent } => power_value(s.style, s.strike, pow_value(s.spot, exponent)),
    }
}

/// The standard payoff of the scenario: `max(spot - strike, 0)` for a call,
/// `max(strike - spot, 0)` for a put.
pub fn standard_payoff(info: &PayoffInfo) -> (r: Amount)
    ensures
        r@ == standard_value(info@),
        0 <= r@ <= u64::MAX,
{
    match info.style {
        OptionStyle::Call => info.spot.saturating_sub(&info.strike).to_amount(),
        OptionStyle::Put => info.strike.saturating_sub(&info.spot).to_amount(),
    }
}

/// The payoff of an Asian option, given the average of its path.
pub fn average_payoff(style: OptionStyle, strike: Positive, average: Option<Positive>) -> (r:
    Amount)
    ensures
        r@ == average_value(style, strike@, units_opt(average)),
{
    match average {
        Some(a) => match style {
            OptionStyle::Call => a.saturating_sub(&strike).to_amount(),
            OptionStyle::Put => strike.saturating_sub(&a).to_amount(),
        },
        None => Amount::zero(),
    }
}

/// The payoff of an Asian option: the intrinsic value at the average of the
/// sampled prices, and zero where the scenario holds no path or an empty one.
pub fn calculate_asian_payoff(averaging_type: &AsianAveragingType, info: &PayoffInfo) -> (r:
    Amount)
    ensures
        r@ == asian_value(*averaging_type, info@),
{
    let average: Option<Positive> = match &info.spot_prices {
        Some(prices) => match averaging_type {
            AsianAveragingType::Arithmetic => arithmetic_mean_of(prices),
            AsianAveragingType::Geometric => geometric_mean_of(prices),
        },
        None => None,
    };
    average_payoff(info.style, info.strike, average)
}

/// The payoff of a barrier option.
pub fn calculate_barrier_payoff(
    barrier_type: &BarrierType,
    barrier_level: &Positive,
    rebate: &Option<Positive>,
    info: &PayoffInfo,
) -> (r: Amount)
    ensures
        r@ == barrier_value(*barrier_type, barrier_level@, units_opt(*rebate), info@),
{
    let barrier_condition: bool = match barrier_type {
        BarrierType::UpAndIn | BarrierType::UpAndOut => {
            let highest: Positive = match info.spot_max {
                Some(m) => m,
                None => info.spot,
            };
            highest >= *barrier_level
        },
        BarrierType::DownAndIn | BarrierType::DownAndOut => {
            let lowest: Positive = match info.spot_min {
                Some(m) => m,
                None => info.spot,
            };
            lowest <= *barrier_level
        },
    };
    let std_payoff: Amount = standard_payoff(info);
    match barrier_type {
        BarrierType::UpAndIn | BarrierType::DownAndIn => {
            if barrier_condition {
                std_payoff
            } else {
                Amount::zero()
            }
        },
        BarrierType::UpAndOut | BarrierType::DownAndOut => {
            if barrier_condition {
                match rebate {
                    Some(r) => r.to_amount(),
                    None => Amount::zero(),
                }
            } else {
                std_payoff
            }
        },
    }
}

/// The payoff of a binary option.
pub fn calculate_binary_payoff(binary_type: &BinaryType, info: &PayoffInfo) -> (r: Amount)
    ensures
        r@ == binary_value(*binary_type, info@),
{
    let is_in_the_money: bool = match info.style {
        OptionStyle::Call => info.spot > info.strike,
        OptionStyle::Put => info.spot < info.strike,
    };
    match binary_type {
        BinaryType::CashOrNothing => {
            if is_in_the_money {
                Amount::one()
            } else {
                Amount::zero()
            }
        },
        BinaryType::AssetOrNothing => {
            if is_in_the_money {
                info.spot.to_amount()
            } else {
                Amount::zero()
            }
        },
        BinaryType::Gap => {
            if is_in_the_money {
                if info.spot >= info.strike {
                    info.spot.minus(&info.strike)
                } else {
                    info.strike.minus(&info.spot)
                }
            } else {
                Amount::zero()
            }
        },
    }
}

/// The payoff of a lookback option with a floating strike.
pub fn calculate_floating_strike_payoff(info: &PayoffInfo) -> (r: Amount)
    ensures
        r@ == floating_strike_value(info@),
{
    let extremum: Option<Positive> = match info.style {
        OptionStyle::Call => info.spot_min,
        OptionStyle::Put => info.spot_max,
    };
    let level: Positive = match extremum {
        Some(m) => m,
        None => Positive::zero(),
    };
    match info.style {
        OptionStyle::Call => info.spot.minus(&level),
        OptionStyle::Put => level.minus(&info.spot),
    }
}

/// The payoff of a chooser option.
pub fn calculate_chooser_payoff(info: &PayoffInfo) -> (r: Amount)
    ensures
        r@ == chooser_value(info@),
{
    let call: Positive = info.spot.saturating_sub(&info.strike);
    let put: Positive = info.strike.saturating_sub(&info.spot);
    call.max(put).to_amount()
}

/// The payoff of a quanto option.
pub fn calculate_quanto_payoff(exchange_rate: &Positive, info: &PayoffInfo) -> (r: Amount)
    ensures
        r@ == quanto_value(exchange_rate@, info@),
{
    let base: Amount = standard_payoff(info);
    assert(base.units * exchange_rate.units <= 0xFFFF_FFFF_FFFF_FFFF * 0xFFFF_FFFF_FFFF_FFFF)
        by (nonlinear_arith)
        requires
            0 <= base.units <= 0xFFFF_FFFF_FFFF_FFFF,
            0 <= exchange_rate.units <= 0xFFFF_FFFF_FFFF_FFFF,
    ;
    assert(0 <= base.units * exchange_rate.units) by (nonlinear_arith)
        requires
            0 <= base.units,
            0 <= exchange_rate.units,
    ;
    let product: u128 = (base.units as u128) * (exchange_rate.units as u128);
    let converted: u128 = round_div_u128(product, SCALE as u128);
    Amount { units: converted as i128 }
}

/// The payoff of a power option, given the power of the spot.
pub fn power_payoff(style: OptionStyle, strike: Positive, powered: Option<Amount>) -> (r: Amount)
    ensures
        r@ == power_value(style, strike@, units_of_amount(powered)),
{
    match powered {
        Some(p) => {
            let k: Amount = strike.to_amount();
            if p < Amount::zero() {
                Amount::zero()
            } else {
                match style {
                    OptionStyle::Call => if p > k {
                        Amount { units: p.units - k.units }
                    } else {
                        Amount::zero()
                    },
                    OptionStyle::Put => if k > p {
                        Amount { units: k.units - p.units }
                    } else {
                        Amount::zero()
                    },
                }
            }
        },
        None => Amount::zero(),
    }
}

/// The payoff of a power option: the intrinsic value at the spot raised to
/// the exponent, and zero where that power cannot be had.
pub fn calculate_power_payoff(exponent: &Positive, info: &PayoffInfo) -> (r: Amount)
    ensures
        r@ == power_value(info@.style, info@.strike, pow_value(info@.spot, exponent@)),
{
    power_payoff(info.style, info.strike, power(info.spot, *exponent))
}

impl OptionType {
    /// The payoff of this contract in the scenario `info`.
    pub fn payoff(&self, info: &PayoffInfo) -> (r: Amount)
        ensures
            r@ == payoff_value(self@, info@),
        decreases self,
    {
        match self {
            OptionType::European | OptionType::American => standard_payoff(info),
            OptionType::Bermuda { .. } => standard_payoff(info),
            OptionType::Asian { averaging_type } => calculate_asian_payoff(averaging_type, info),
            OptionType::Barrier { barrier_type, barrier_level, rebate } => calculate_barrier_payoff(
                barrier_type,
                barrier_level,
                rebate,
                info,
            ),
            OptionType::Binary { binary_type } => calculate_binary_payoff(binary_type, info),
            OptionType::Lookback { lookback_type } => match lookback_type {
                LookbackType::FixedStrike => standard_payoff(info),
                LookbackType::FloatingStrike => calculate_floating_strike_payoff(info),
            },
            OptionType::Compound { underlying_option } => underlying_option.payoff(info),
            OptionType::Chooser { .. } => calculate_chooser_payoff(info),
            OptionType::Cliquet { .. } => standard_payoff(info),
            OptionType::Rainbow { .. } | OptionType::Spread { .. } | OptionType::Exchange { .. } =>
                standard_payoff(info),
            OptionType::Quanto { exchange_rate } => calculate_quanto_payoff(exchange_rate, info),
            OptionType::Power { exponent } => calculate_power_payoff(exponent, info),
        }
    }
}

} // verus!
