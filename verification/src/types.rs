//! The terms of an option contract.

use crate::positive::{units_opt, units_seq, Positive};
use vstd::prelude::*;

verus! {

/// Whether the holder may buy or sell the underlying asset.
#[derive(Clone, Copy, Debug, PartialEq, Eq, Hash, Structural)]
pub enum OptionStyle {
    /// The right to buy at the strike.
    Call,
    /// The right to sell at the strike.
    Put,
}

/// Which side of the contract a position is on. A payoff does not depend on
/// it.
#[derive(Clone, Copy, Debug, PartialEq, Eq, Hash, Structural)]
pub enum Side {
    /// The holder.
    Long,
    /// The writer.
    Short,
}

/// How an Asian option averages the sampled prices.
#[derive(Clone, Copy, Debug, PartialEq, Eq, Hash, Structural)]
pub enum AsianAveragingType {
    /// The sum of the prices over their number.
    Arithmetic,
    /// The n-th root of the product of the n prices.
    Geometric,
}

/// On which side of the price the barrier lies, and what reaching it does.
#[derive(Clone, Copy, Debug, PartialEq, Eq, Hash, Structural)]
pub enum BarrierType {
    /// The option comes to life when the price rises to the barrier.
    UpAndIn,
    /// The option comes to life when the price falls to the barrier.
    DownAndIn,
    /// The option is extinguished when the price rises to the barrier.
    UpAndOut,
    /// The option is extinguished when the price falls to the barrier.
    DownAndOut,
}

/// What a binary option pays when it ends in the money.
#[derive(Clone, Copy, Debug, PartialEq, Eq, Hash, Structural)]
pub enum BinaryType {
    /// One unit of cash.
    CashOrNothing,
    /// The asset, at its spot price.
    AssetOrNothing,
    /// The distance between spot and strike.
    Gap,
}

/// Which strike a lookback option is settled against.
#[derive(Clone, Copy, Debug, PartialEq, Eq, Hash, Structural)]
pub enum LookbackType {
    /// The strike of the contract.
    FixedStrike,
    /// The lowest price seen, for a call, or the highest, for a put.
    FloatingStrike,
}

/// Which of its assets a rainbow option pays on.
#[derive(Clone, Copy, Debug, PartialEq, Eq, Hash, Structural)]
pub enum RainbowType {
    /// The best performer.
    BestOf,
    /// The worst performer.
    WorstOf,
}

/// The kinds of option contract, each with the terms that belong to it.
#[derive(Debug, PartialEq, Eq, Hash)]
pub enum OptionType {
    /// Exercised at expiry only.
    European,
    /// Exercised at any time up to expiry.
    American,
    /// Exercised on given dates.
    Bermuda {
        /// The exercise dates, in days to expiry.
        exercise_dates: Vec<Positive>,
    },
    /// Settled against an average of the sampled prices.
    Asian {
        /// How the average is formed.
        averaging_type: AsianAveragingType,
    },
    /// Brought to life or extinguished when the price reaches a barrier.
    Barrier {
        /// The side of the barrier and what reaching it does.
        barrier_type: BarrierType,
        /// The price at which the barrier lies.
        barrier_level: Positive,
        /// What a knocked-out option still pays.
        rebate: Option<Positive>,
    },
    /// Pays a set amount when it ends in the money.
    Binary {
        /// What it pays.
        binary_type: BinaryType,
    },
    /// Settled with the benefit of hindsight over the price path.
    Lookback {
        /// The strike it is settled against.
        lookback_type: LookbackType,
    },
    /// An option on an option.
    Compound {
        /// The option underneath.
        underlying_option: Box<OptionType>,
    },
    /// Becomes a call or a put at the holder's choice.
    Chooser {
        /// The day of the choice, in days to expiry.
        choice_date: Positive,
    },
    /// Resets its strike on given dates.
    Cliquet {
        /// The reset dates, in days to expiry.
        reset_dates: Vec<Positive>,
    },
    /// Written on several assets.
    Rainbow {
        /// How many assets.
        num_assets: usize,
        /// Which of them it pays on.
        rainbow_type: RainbowType,
    },
    /// Written on the difference of two prices.
    Spread {
        /// The price of the second asset.
        second_asset: Positive,
    },
    /// Paid in another currency at a fixed rate.
    Quanto {
        /// The rate at which the payoff is converted.
        exchange_rate: Positive,
    },
    /// The right to exchange one asset for another.
    Exchange {
        /// The price of the second asset.
        second_asset: Positive,
    },
    /// Written on a power of the price.
    Power {
        /// The exponent to which the price is raised.
        exponent: Positive,
    },
}

/// The terms of an option contract in plain numbers, each amount in units
/// of 10^-8. It is the view of an [`OptionType`].
pub enum Contract {
    European,
    American,
    Bermuda { exercise_dates: Seq<int> },
    Asian { averaging_type: AsianAveragingType },
    Barrier { barrier_type: BarrierType, barrier_level: int, rebate: Option<int> },
    Binary { binary_type: BinaryType },
    Lookback { lookback_type: LookbackType },
    Compound { underlying_option: Box<Contract> },
    Chooser { choice_date: int },
    Cliquet { reset_dates: Seq<int> },
    Rainbow { num_assets: nat, rainbow_type: RainbowType },
    Spread { second_asset: int },
    Quanto { exchange_rate: int },
    Exchange { second_asset: int },
    Power { exponent: int },
}

/// The terms of `option` in plain numbers.
pub open spec fn contract_of(option: OptionType) -> Contract
    decreases option,
{
    match option {
        OptionType::European => Contract::European,
        OptionType::American => Contract::American,
        OptionType::Bermuda { exercise_dates } => Contract::Bermuda {
            exercise_dates: units_seq(exercise_dates@),
        },
        OptionType::Asian { averaging_type } => Contract::Asian { averaging_type },
        OptionType::Barrier { barrier_type, barrier_level, rebate } => Contract::Barrier {
            barrier_type,
            barrier_level: barrier_level@,
            rebate: units_opt(rebate),
        },
        OptionType::Binary { binary_type } => Contract::Binary { binary_type },
        OptionType::Lookback { lookback_type } => Contract::Lookback { lookback_type },
        OptionType::Compound { underlying_option } => Contract::Compound {
            underlying_option: Box::new(contract_of(*underlying_option)),
        },
        OptionType::Chooser { choice_date } => Contract::Chooser { choice_date: choice_date@ },
        OptionType::Cliquet { reset_dates } => Contract::Cliquet {
            reset_dates: units_seq(reset_dates@),
        },
        OptionType::Rainbow { num_assets, rainbow_type } => Contract::Rainbow {
            num_assets: num_assets as nat,
            rainbow_type,
        },
        OptionType::Spread { second_asset } => Contract::Spread { second_asset: second_asset@ },
        OptionType::Quanto { exchange_rate } => Contract::Quanto { exchange_rate: exchange_rate@ },
        OptionType::Exchange { second_asset } => Contract::Exchange {
            second_asset: second_asset@,
        },
        OptionType::Power { exponent } => Contract::Power { exponent: exponent@ },
    }
}

impl View for OptionType {
    type V = Contract;

    open spec fn view(&self) -> Contract {
        contract_of(*self)
    }
}

impl Clone for OptionType {
    /// A contract with the same terms.
    fn clone(&self) -> (r: OptionType)
        ensures
            r@ == self@,
        decreases self,
    {
        match self {
            OptionType::European => OptionType::European,
            OptionType::American => OptionType::American,
            OptionType::Bermuda { exercise_dates } => OptionType::Bermuda {
                exercise_dates: exercise_dates.clone(),
            },
            OptionType::Asian { averaging_type } => OptionType::Asian {
                averaging_type: *averaging_type,
            },
            OptionType::Barrier { barrier_type, barrier_level, rebate } => OptionType::Barrier {
                barrier_type: *barrier_type,
                barrier_level: *barrier_level,
                rebate: *rebate,
            },
            OptionType::Binary { binary_type } => OptionType::Binary { binary_type: *binary_type },
            OptionType::Lookback { lookback_type } => OptionType::Lookback {
                lookback_type: *lookback_type,
            },
            OptionType::Compound { underlying_option } => {
                let inner: OptionType = (**underlying_option).clone();
                OptionType::Compound { underlying_option: Box::new(inner) }
            },
            OptionType::Chooser { choice_date } => OptionType::Chooser { choice_date: *choice_date },
            OptionType::Cliquet { reset_dates } => OptionType::Cliquet {
                reset_dates: reset_dates.clone(),
            },
            OptionType::Rainbow { num_assets, rainbow_type } => OptionType::Rainbow {
                num_assets: *num_assets,
                rainbow_type: *rainbow_type,
            },
            OptionType::Spread { second_asset } => OptionType::Spread {
                second_asset: *second_asset,
            },
            OptionType::Quanto { exchange_rate } => OptionType::Quanto {
                exchange_rate: *exchange_rate,
            },
            OptionType::Exchange { second_asset } => OptionType::Exchange {
                second_asset: *second_asset,
            },
            OptionType::Power { exponent } => OptionType::Power { exponent: *exponent },
        }
    }
}

} // verus!
