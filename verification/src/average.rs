//! Averages of a path of sampled prices.

use crate::decimal::{exp_value, exponential, ln_value, natural_log, LOG_LIMIT};
use crate::positive::{units_opt, units_seq, Positive};
use crate::scaling::{round_div, round_div_i128, round_div_u128};
use vstd::prelude::*;

verus! {

/// The sum of the prices.
pub open spec fn price_sum(prices: Seq<int>) -> int
    decreases prices.len(),
{
    if prices.len() == 0 {
        0
    } else {
        price_sum(prices.drop_last()) + prices.last()
    }
}

/// The arithmetic mean of the prices, rounded to the nearest unit. An empty
/// path has none.
pub open spec fn arithmetic_mean(prices: Seq<int>) -> Option<int> {
    if prices.len() == 0 {
        None
    } else {
        Some(round_div(price_sum(prices), prices.len() as int))
    }
}

/// The sum of the natural logarithms of the prices, in units of 10^-16.
/// There is none where one of the prices has no logarithm.
pub open spec fn log_sum(prices: Seq<int>) -> Option<int>
    decreases prices.len(),
{
    if prices.len() == 0 {
        Some(0)
    } else {
        match (log_sum(prices.drop_last()), ln_value(prices.last())) {
            (Some(s), Some(l)) => Some(s + l),
            _ => None,
        }
    }
}

/// The geometric mean of the prices: the exponential of the mean of their
/// logarithms, which is the n-th root of their product. A path that holds a
/// price of zero has the mean zero. An empty path has no mean, nor has one on
/// which a logarithm or the exponential cannot be had, or comes out as no
/// price.
pub open spec fn geometric_mean(prices: Seq<int>) -> Option<int> {
    if prices.len() == 0 {
        None
    } else if prices.contains(0) {
        Some(0)
    } else {
        match log_sum(prices) {
            Some(s) => match exp_value(round_div(s, prices.len() as int)) {
                Some(a) => if 0 <= a <= u64::MAX {
                    Some(a)
                } else {
                    None
                },
                None => None,
            },
            None => None,
        }
    }
}

/// The rounded mean of `n` numbers of at most `bound` each is at most
/// `bound`.
proof fn lemma_mean_bound(sum: int, n: int, bound: int)
    requires
        n > 0,
        bound >= 0,
        -(n * bound) <= sum <= n * bound,
    ensures
        -bound <= round_div(sum, n) <= bound,
{
    let a = if sum >= 0 { sum } else { -sum };
    let q = a / n;
    let r = a % n;
    assert(q <= bound && (q == bound ==> r == 0)) by (nonlinear_arith)
        requires
            n > 0,
            0 <= a <= n * bound,
            q == a / n,
            r == a % n,
    {
        assert(a == n * q + r);
        assert(0 <= r < n);
        if q > bound {
            assert(n * q >= n * (bound + 1));
        }
        if q == bound {
            assert(n * q == n * bound);
        }
    }
}

/// Where a path has a sum of logarithms, so has each of its beginnings, and
/// the sum is within the limit of a logarithm times the number of prices.
proof fn lemma_log_sum_prefix(prices: Seq<int>, k: int)
    requires
        0 <= k <= prices.len(),
        log_sum(prices) is Some,
    ensures
        log_sum(prices.take(k)) is Some,
        -(prices.len() * LOG_LIMIT) <= log_sum(prices).unwrap() <= prices.len() * LOG_LIMIT,
    decreases prices.len(),
{
    if prices.len() == 0 {
        assert(prices.take(k) =~= prices);
    } else {
        lemma_log_sum_prefix(prices.drop_last(), if k < prices.len() { k } else { k - 1 });
        if k < prices.len() {
            assert(prices.take(k) =~= prices.drop_last().take(k));
        } else {
            assert(prices.take(k) =~= prices);
        }
        assert((prices.len() - 1) * LOG_LIMIT + LOG_LIMIT == prices.len() * LOG_LIMIT)
            by (nonlinear_arith);
    }
}

/// The arithmetic mean of the prices of a path.
pub fn arithmetic_mean_of(prices: &Vec<Positive>) -> (r: Option<Positive>)
    ensures
        units_opt(r) == arithmetic_mean(units_seq(prices@)),
{
    let n: usize = prices.len();
    if n == 0 {
        return None;
    }
    let ghost u = units_seq(prices@);
    let mut sum: u128 = 0;
    let mut i: usize = 0;
    while i < n
        invariant
            i <= n == prices.len(),
            u == units_seq(prices@),
            sum == price_sum(u.take(i as int)),
            sum <= i * u64::MAX,
        decreases n - i,
    {
        proof {
            assert(u.take(i + 1).drop_last() =~= u.take(i as int));
            assert(u.take(i + 1).last() == prices[i as int]@);
            assert(i * u64::MAX + u64::MAX == (i + 1) * u64::MAX) by (nonlinear_arith);
            assert((i + 1) * u64::MAX <= usize::MAX * u64::MAX) by (nonlinear_arith)
                requires
                    i + 1 <= usize::MAX,
            ;
        }
        sum = sum + prices[i].units as u128;
        i = i + 1;
    }
    proof {
        assert(u.take(n as int) =~= u);
        lemma_mean_bound(sum as int, n as int, u64::MAX as int);
    }
    let mean: u128 = round_div_u128(sum, n as u128);
    Some(Positive { units: mean as u64 })
}

/// The geometric mean of the prices of a path.
pub fn geometric_mean_of(prices: &Vec<Positive>) -> (r: Option<Positive>)
    ensures
        units_opt(r) == geometric_mean(units_seq(prices@)),
{
    let n: usize = prices.len();
    if n == 0 {
        return None;
    }
    let ghost u = units_seq(prices@);
    let mut i: usize = 0;
    while i < n
        invariant
            i <= n == prices.len(),
            u == units_seq(prices@),
            forall|j: int| 0 <= j < i ==> u[j] != 0,
        decreases n - i,
    {
        if prices[i].is_zero() {
            assert(u[i as int] == 0);
            return Some(Positive::zero());
        }
        i = i + 1;
    }
    assert(!u.contains(0));
    let mut sum: i128 = 0;
    i = 0;
    while i < n
        invariant
            i <= n == prices.len(),
            u == units_seq(prices@),
            !u.contains(0),
            log_sum(u.take(i as int)) == Some(sum as int),
            -(i * LOG_LIMIT) <= sum <= i * LOG_LIMIT,
        decreases n - i,
    {
        proof {
            assert(u.take(i + 1).drop_last() =~= u.take(i as int));
            assert(u.take(i + 1).last() == prices[i as int]@);
            assert(i * LOG_LIMIT + LOG_LIMIT == (i + 1) * LOG_LIMIT) by (nonlinear_arith);
            assert((i + 1) * LOG_LIMIT <= usize::MAX * LOG_LIMIT) by (nonlinear_arith)
                requires
                    i + 1 <= usize::MAX,
            ;
        }
        match natural_log(prices[i]) {
            Some(l) => {
                sum = sum + l;
            },
            None => {
                proof {
                    assert(log_sum(u.take(i + 1)) is None);
                    if log_sum(u) is Some {
                        lemma_log_sum_prefix(u, i + 1);
                    }
                }
                return None;
            },
        }
        i = i + 1;
    }
    proof {
        assert(u.take(n as int) =~= u);
        lemma_mean_bound(sum as int, n as int, LOG_LIMIT as int);
    }
    let mean: i128 = round_div_i128(sum, n as u128);
    match exponential(mean) {
        Some(a) => match Positive::new(a) {
            Ok(p) => Some(p),
            Err(_) => None,
        },
        None => None,
    }
}

} // verus!
