//! Terminal payoffs of vanilla and exotic option contracts, computed in
//! fixed-point decimal arithmetic and verified with Verus.
//!
//! A contract is an [`OptionType`], a market scenario is a [`PayoffInfo`], and
//! [`OptionType::payoff`] maps the two to an amount of money. The function is
//! total and has no state: it neither fails nor panics, and its contract
//! equates the result with the spec function [`payoff::payoff_value`], which
//! says in plain integers what each kind of contract pays.
//!
//! # Numbers
//!
//! Amounts are counted in units of 10^-8. An [`Amount`] is any signed amount,
//! a [`Positive`] is an amount that cannot be negative: prices, strikes,
//! barrier levels and rates are of that type, and a negative amount cannot be
//! made into one. Sums and differences are exact. Where a formula multiplies
//! or divides, the result is rounded to the nearest unit, a half away from
//! zero.
//!
//! # What is taken on trust
//!
//! Two formulas need more than integer arithmetic: the geometric mean of an
//! Asian option and the power of a power option. Logarithm, exponential and
//! the power to a whole exponent are computed by `rust_decimal`; the module
//! [`decimal`] holds the three calls and names their results. The contracts
//! of the functions that use them speak of those names.
//!
//! # Missing data
//!
//! A payoff that needs data which the scenario does not hold is zero: an
//! Asian option without a path, or a mean or a power that `rust_decimal`
//! cannot compute. A caller who must tell a payoff of zero from missing data
//! looks at the scenario, or at [`average::geometric_mean_of`] and
//! [`power::power`], before the call.

pub mod amount;
pub mod average;
pub mod decimal;
pub mod ordering;
pub mod payoff;
pub mod positive;
pub mod power;
pub mod scaling;
pub mod theorems;
pub mod types;

pub use amount::Amount;
pub use payoff::{
    calculate_asian_payoff, calculate_barrier_payoff, calculate_binary_payoff,
    calculate_floating_strike_payoff, standard_payoff, PayoffInfo,
};
pub use positive::{Positive, PositiveError};
pub use types::{
    AsianAveragingType, BarrierType, BinaryType, LookbackType, OptionStyle, OptionType, RainbowType,
    Side,
};
