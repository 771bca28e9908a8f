use option_payoff::amount::{SCALE, SCALE_DIGITS};
use option_payoff::decimal::{
    amount_from_decimal, exponential, log_from_decimal, natural_log, whole_power, DecimalParts,
    LOG_LIMIT, MAX_MANTISSA, MAX_SCALE,
};
use option_payoff::power::power;
use option_payoff::{Amount, Positive, PositiveError};

#[test]
fn amount_constants_and_units() {
    assert_eq!(SCALE, 100_000_000);
    assert_eq!(SCALE_DIGITS, 8);
    assert_eq!(Amount::zero().units(), 0);
    assert_eq!(Amount::one().units(), 100_000_000);
    assert_eq!(Amount::from_units(-7).units(), -7);
    assert_eq!(Amount::from_int(-3).units(), -300_000_000);
    assert_eq!(Amount::from_int(i64::MAX).units(), i64::MAX as i128 * 100_000_000);
    assert_eq!(Amount::from_int(i64::MIN).units(), i64::MIN as i128 * 100_000_000);
}

#[test]
fn amount_from_scaled_is_exact_up_to_eight_places() {
    assert_eq!(Amount::from_scaled(15, 1), Some(Amount::from_units(150_000_000)));
    assert_eq!(Amount::from_scaled(-467, 2), Some(Amount::from_units(-467_000_000)));
    assert_eq!(Amount::from_scaled(12_345_678, 8), Some(Amount::from_units(12_345_678)));
    assert_eq!(Amount::from_scaled(5, 0), Some(Amount::from_int(5)));
    assert_eq!(Amount::from_scaled(1, 9), None);
    assert_eq!(Amount::from_scaled(0, u32::MAX), None);
}

#[test]
fn amount_checked_arithmetic_reports_overflow() {
    let a = Amount::from_int(7);
    let b = Amount::from_int(-9);
    assert_eq!(a.checked_add(&b), Some(Amount::from_int(-2)));
    assert_eq!(a.checked_sub(&b), Some(Amount::from_int(16)));
    let top = Amount::from_units(i128::MAX);
    let bottom = Amount::from_units(i128::MIN);
    assert_eq!(top.checked_add(&Amount::from_units(1)), None);
    assert_eq!(bottom.checked_sub(&Amount::from_units(1)), None);
    assert_eq!(top.checked_add(&bottom), Some(Amount::from_units(-1)));
    assert_eq!(Amount::zero().checked_sub(&bottom), None);
}

#[test]
fn amount_max_and_min() {
    let a = Amount::from_int(-1);
    let b = Amount::from_int(2);
    assert_eq!(a.max(b), b);
    assert_eq!(b.max(a), b);
    assert_eq!(a.min(b), a);
    assert_eq!(b.min(a), a);
    assert_eq!(a.max(a), a);
    assert!(a < b);
}

#[test]
fn positive_new_rejects_negative_amounts() {
    assert_eq!(Positive::new(Amount::from_units(-1)), Err(PositiveError::Negative));
    assert_eq!(Positive::new(Amount::from_int(-100)), Err(PositiveError::Negative));
    assert_eq!(Positive::new(Amount::from_units(i128::MIN)), Err(PositiveError::Negative));
}

#[test]
fn positive_new_rejects_amounts_beyond_its_range() {
    let limit = u64::MAX as i128;
    assert_eq!(Positive::new(Amount::from_units(limit)), Ok(Positive::from_units(u64::MAX)));
    assert_eq!(Positive::new(Amount::from_units(limit + 1)), Err(PositiveError::TooLarge));
    assert_eq!(Positive::new(Amount::from_units(i128::MAX)), Err(PositiveError::TooLarge));
}

#[test]
fn positive_new_keeps_what_it_accepts() {
    assert_eq!(Positive::new(Amount::zero()), Ok(Positive::zero()));
    assert_eq!(Positive::new(Amount::from_int(100)), Ok(Positive::hundred()));
    let p = Positive::new(Amount::from_units(123_456_789)).unwrap();
    assert_eq!(p.units(), 123_456_789);
    assert_eq!(p.to_amount(), Amount::from_units(123_456_789));
}

#[test]
fn positive_named_values() {
    assert_eq!(Positive::zero().units(), 0);
    assert_eq!(Positive::one().units(), 100_000_000);
    assert_eq!(Positive::two().units(), 200_000_000);
    assert_eq!(Positive::hundred().units(), 10_000_000_000);
    assert_eq!(Positive::from_int(100), Positive::hundred());
    assert_eq!(Positive::from_int(u32::MAX).units(), u32::MAX as u64 * 100_000_000);
    assert!(Positive::zero().is_zero());
    assert!(!Positive::from_units(1).is_zero());
}

#[test]
fn positive_arithmetic_keeps_or_clamps_the_sign() {
    let a = Positive::from_int(3);
    let b = Positive::from_int(5);
    assert_eq!(a.minus(&b), Amount::from_int(-2));
    assert_eq!(b.minus(&a), Amount::from_int(2));
    assert_eq!(a.saturating_sub(&b), Positive::zero());
    assert_eq!(b.saturating_sub(&a), Positive::two());
    assert_eq!(a.checked_add(&b), Some(Positive::from_int(8)));
    assert_eq!(Positive::from_units(u64::MAX).checked_add(&Positive::from_units(1)), None);
    assert_eq!(
        Positive::zero().minus(&Positive::from_units(u64::MAX)),
        Amount::from_units(-(u64::MAX as i128))
    );
    assert_eq!(a.max(b), b);
    assert_eq!(a.min(b), a);
    assert!(a < b);
}

#[test]
fn decimal_parts_validity() {
    assert_eq!(MAX_MANTISSA, (1i128 << 96) - 1);
    assert_eq!(MAX_SCALE, 28);
    assert!(DecimalParts { mantissa: MAX_MANTISSA, scale: 28 }.is_valid());
    assert!(DecimalParts { mantissa: -MAX_MANTISSA, scale: 0 }.is_valid());
    assert!(!DecimalParts { mantissa: MAX_MANTISSA + 1, scale: 0 }.is_valid());
    assert!(!DecimalParts { mantissa: -MAX_MANTISSA - 1, scale: 0 }.is_valid());
    assert!(!DecimalParts { mantissa: 1, scale: 29 }.is_valid());
}

#[test]
fn decimal_parts_rescale_to_a_coarser_scale_rounds_to_nearest() {
    let d = |mantissa: i128, scale: u32| DecimalParts { mantissa, scale };
    assert_eq!(d(12_345, 3).rescaled(2), Some(1_235));
    assert_eq!(d(12_344, 3).rescaled(2), Some(1_234));
    assert_eq!(d(-12_345, 3).rescaled(2), Some(-1_235));
    assert_eq!(d(-12_344, 3).rescaled(2), Some(-1_234));
    assert_eq!(d(5, 1).rescaled(0), Some(1));
    assert_eq!(d(4, 1).rescaled(0), Some(0));
    assert_eq!(d(-5, 1).rescaled(0), Some(-1));
    assert_eq!(d(49, 2).rescaled(0), Some(0));
    assert_eq!(d(MAX_MANTISSA, 28).rescaled(0), Some(8));
    assert_eq!(d(1, 28).rescaled(8), Some(0));
}

#[test]
fn decimal_parts_rescale_to_a_finer_scale_is_exact() {
    let d = |mantissa: i128, scale: u32| DecimalParts { mantissa, scale };
    assert_eq!(d(15, 1).rescaled(8), Some(150_000_000));
    assert_eq!(d(-15, 1).rescaled(8), Some(-150_000_000));
    assert_eq!(d(7, 8).rescaled(8), Some(7));
    assert_eq!(d(0, 0).rescaled(28), Some(0));
    assert_eq!(d(MAX_MANTISSA, 0).rescaled(8), Some(MAX_MANTISSA * 100_000_000));
}

#[test]
fn decimal_parts_rescale_has_no_result_out_of_range() {
    let d = |mantissa: i128, scale: u32| DecimalParts { mantissa, scale };
    assert_eq!(d(MAX_MANTISSA, 0).rescaled(28), None);
    assert_eq!(d(1, 0).rescaled(29), None);
    assert_eq!(d(1, 29).rescaled(8), None);
    assert_eq!(d(MAX_MANTISSA + 1, 0).rescaled(0), None);
}

#[test]
fn amount_from_decimal_rounds_to_eight_places() {
    let d = |mantissa: i128, scale: u32| Some(DecimalParts { mantissa, scale });
    assert_eq!(amount_from_decimal(d(100, 0)), Some(Amount::from_int(100)));
    assert_eq!(amount_from_decimal(d(1_234_567_894, 9)), Some(Amount::from_units(123_456_789)));
    assert_eq!(amount_from_decimal(d(1_234_567_895, 9)), Some(Amount::from_units(123_456_790)));
    assert_eq!(amount_from_decimal(d(-1_234_567_895, 9)), Some(Amount::from_units(-123_456_790)));
    assert_eq!(
        amount_from_decimal(d(MAX_MANTISSA, 0)),
        Some(Amount::from_units(MAX_MANTISSA * 100_000_000))
    );
    assert_eq!(amount_from_decimal(None), None);
    assert_eq!(amount_from_decimal(d(1, 29)), None);
    assert_eq!(amount_from_decimal(d(MAX_MANTISSA + 1, 0)), None);
}

#[test]
fn log_from_decimal_keeps_sixteen_places_within_the_limit() {
    let d = |mantissa: i128, scale: u32| Some(DecimalParts { mantissa, scale });
    assert_eq!(LOG_LIMIT, 1_000_000_000_000_000_000);
    assert_eq!(log_from_decimal(d(1, 0)), Some(10_000_000_000_000_000));
    assert_eq!(log_from_decimal(d(-25, 1)), Some(-25_000_000_000_000_000));
    assert_eq!(log_from_decimal(d(12_345_678_901_234_567_895, 19)), Some(12_345_678_901_234_568));
    assert_eq!(log_from_decimal(d(100, 0)), Some(LOG_LIMIT));
    assert_eq!(log_from_decimal(d(-100, 0)), Some(-LOG_LIMIT));
    assert_eq!(log_from_decimal(d(1_000_000_000_000_000_001, 16)), None);
    assert_eq!(log_from_decimal(d(101, 0)), None);
    assert_eq!(log_from_decimal(d(MAX_MANTISSA, 0)), None);
    assert_eq!(log_from_decimal(d(1, 29)), None);
    assert_eq!(log_from_decimal(None), None);
}

#[test]
fn natural_log_of_known_values() {
    assert_eq!(natural_log(Positive::one()), Some(0));
    assert_eq!(natural_log(Positive::from_int(10)), Some(23_025_850_929_940_457));
    assert_eq!(natural_log(Positive::hundred()), Some(46_051_701_859_880_914));
    let half = natural_log(Positive::from_units(50_000_000)).unwrap();
    assert!((half + 6_931_471_805_599_453).abs() <= 1);
    assert_eq!(natural_log(Positive::zero()), None);
}

#[test]
fn exponential_of_known_values() {
    assert_eq!(exponential(0), Some(Amount::one()));
    assert_eq!(exponential(10_000_000_000_000_000), Some(Amount::from_units(271_828_183)));
    assert_eq!(exponential(-10_000_000_000_000_000), Some(Amount::from_units(36_787_944)));
    assert_eq!(exponential(46_051_701_859_880_914), Some(Amount::from_int(100)));
    assert_eq!(exponential(LOG_LIMIT), None);
    assert_eq!(exponential(MAX_MANTISSA + 1), None);
    assert_eq!(exponential(i128::MIN), None);
}

#[test]
fn whole_power_of_known_values() {
    assert_eq!(whole_power(Positive::two(), 10), Some(Amount::from_int(1024)));
    assert_eq!(whole_power(Positive::from_int(1000), 3), Some(Amount::from_int(1_000_000_000)));
    assert_eq!(whole_power(Positive::from_units(150_000_000), 3), Some(Amount::from_units(337_500_000)));
    assert_eq!(whole_power(Positive::two(), 0), Some(Amount::one()));
    assert_eq!(whole_power(Positive::zero(), 0), Some(Amount::one()));
    assert_eq!(whole_power(Positive::zero(), 5), Some(Amount::zero()));
    assert_eq!(whole_power(Positive::one(), u64::MAX), Some(Amount::one()));
    assert_eq!(whole_power(Positive::from_units(50_000_000), u64::MAX), Some(Amount::zero()));
    assert_eq!(whole_power(Positive::from_int(10), 29), None);
    assert_eq!(whole_power(Positive::from_units(110_000_000), 2000), None);
}

#[test]
fn power_with_exponent_zero_one_or_two_is_exact() {
    let p = |units: u64| Positive::from_units(units);
    assert_eq!(power(Positive::from_int(7), Positive::zero()), Some(Amount::one()));
    assert_eq!(power(Positive::zero(), Positive::zero()), Some(Amount::one()));
    assert_eq!(power(p(u64::MAX), Positive::zero()), Some(Amount::one()));
    assert_eq!(power(Positive::zero(), Positive::two()), Some(Amount::zero()));
    assert_eq!(power(Positive::zero(), p(1)), Some(Amount::zero()));
    assert_eq!(power(Positive::from_int(7), Positive::one()), Some(Amount::from_int(7)));
    assert_eq!(power(p(u64::MAX), Positive::one()), Some(Amount::from_units(u64::MAX as i128)));
    assert_eq!(power(Positive::from_int(10), Positive::two()), Some(Amount::from_int(100)));
    assert_eq!(power(Positive::from_int(8), Positive::two()), Some(Amount::from_int(64)));
    assert_eq!(power(p(150_000_000), Positive::two()), Some(Amount::from_units(225_000_000)));
    assert_eq!(power(p(7_071), Positive::two()), Some(Amount::from_units(0)));
    assert_eq!(power(p(7_072), Positive::two()), Some(Amount::from_units(1)));
    let top = (u64::MAX as u128) * (u64::MAX as u128);
    assert_eq!(
        power(p(u64::MAX), Positive::two()),
        Some(Amount::from_units(((top + 50_000_000) / 100_000_000) as i128))
    );
}

#[test]
fn power_with_a_larger_whole_exponent() {
    let p = |units: u64| Positive::from_units(units);
    assert_eq!(power(Positive::from_int(1000), Positive::from_int(3)), Some(Amount::from_int(1_000_000_000)));
    assert_eq!(power(p(150_000_000), Positive::from_int(3)), Some(Amount::from_units(337_500_000)));
    assert_eq!(power(Positive::two(), Positive::from_int(10)), Some(Amount::from_int(1024)));
    assert_eq!(power(p(50_000_000), Positive::from_int(40)), Some(Amount::zero()));
    assert_eq!(power(Positive::from_int(1000), Positive::from_int(30)), None);
}

#[test]
fn power_with_a_fractional_exponent() {
    let p = |units: u64| Positive::from_units(units);
    assert_eq!(power(Positive::two(), p(50_000_000)), Some(Amount::from_units(141_421_356)));
    assert_eq!(power(Positive::from_int(3), p(250_000_000)), Some(Amount::from_units(1_558_845_727)));
    assert_eq!(power(Positive::hundred(), p(150_000_000)), Some(Amount::from_int(1000)));
    assert_eq!(power(Positive::one(), p(30_000_000)), Some(Amount::one()));
    assert_eq!(power(p(1), p(50_000_000)), Some(Amount::from_units(10_000)));
    assert_eq!(power(Positive::two(), p(1_000_000_001)), Some(Amount::from_units(102_400_000_710)));
    assert_eq!(power(Positive::two(), p(u64::MAX)), None);
}
