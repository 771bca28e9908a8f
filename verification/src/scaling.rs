//! Powers of ten and rounding between decimal scales.

use vstd::prelude::*;

verus! {

/// Ten to the power `e`.
pub open spec fn pow10(e: nat) -> nat
    decreases e,
{
    if e == 0 {
        1
    } else {
        10 * pow10((e - 1) as nat)
    }
}

/// The quotient `m / p` rounded to the nearest integer, a half rounded away
/// from zero. Meant for `p > 0`.
pub open spec fn round_div(m: int, p: int) -> int {
    let a = if m >= 0 { m } else { -m };
    let q = a / p;
    let n = if 2 * (a % p) >= p { q + 1 } else { q };
    if m >= 0 { n } else { -n }
}

/// The number `mantissa * 10^-scale`, counted in units of `10^-digits` and
/// rounded to the nearest unit where `scale` is the finer of the two.
pub open spec fn rescale(mantissa: int, scale: nat, digits: nat) -> int {
    if scale <= digits {
        mantissa * pow10((digits - scale) as nat)
    } else {
        round_div(mantissa, pow10((scale - digits) as nat) as int)
    }
}

/// Powers of ten are positive and grow with the exponent.
pub proof fn lemma_pow10_monotonic(a: nat, b: nat)
    requires
        a <= b,
    ensures
        0 < pow10(a) <= pow10(b),
    decreases b,
{
    if b == 0 {
    } else if a == b {
        lemma_pow10_monotonic((a - 1) as nat, (b - 1) as nat);
    } else {
        lemma_pow10_monotonic(a, (b - 1) as nat);
    }
}

/// The powers of ten that bound what this crate computes with.
pub proof fn lemma_pow10_values()
    ensures
        pow10(0) == 1,
        pow10(8) == 100_000_000,
        pow10(16) == 10_000_000_000_000_000,
        pow10(28) == 10_000_000_000_000_000_000_000_000_000,
        pow10(38) == 100_000_000_000_000_000_000_000_000_000_000_000_000,
{
    reveal_with_fuel(pow10, 39);
}

/// Rounding keeps a quotient within the magnitude of its numerator.
pub proof fn lemma_round_div_bound(m: int, p: int)
    requires
        p > 0,
    ensures
        m >= 0 ==> 0 <= round_div(m, p) <= m,
        m <= 0 ==> m <= round_div(m, p) <= 0,
{
    let a = if m >= 0 { m } else { -m };
    assert(0 <= a / p <= a && (2 * (a % p) >= p ==> a / p + 1 <= a)) by (nonlinear_arith)
        requires
            a >= 0,
            p > 0,
    {
        if a < p {
            assert(a / p == 0);
            assert(a % p == a);
        } else {
            assert(a / p >= 1);
            assert(a == p * (a / p) + a % p);
            if p == 1 {
                assert(a % p == 0);
            } else {
                assert(p * (a / p) >= 2 * (a / p));
            }
        }
    }
}

/// Ten to the power `e`, for exponents whose power fits in 128 bits.
pub(crate) fn pow10_u128(e: u32) -> (r: u128)
    requires
        e <= 38,
    ensures
        r == pow10(e as nat),
{
    let mut r: u128 = 1;
    let mut i: u32 = 0;
    while i < e
        invariant
            i <= e <= 38,
            r == pow10(i as nat),
        decreases e - i,
    {
        proof {
            lemma_pow10_monotonic((i + 1) as nat, 38);
            lemma_pow10_values();
        }
        r = r * 10;
        i = i + 1;
    }
    r
}

/// `a / p` rounded to the nearest integer, a half rounded up.
pub(crate) fn round_div_u128(a: u128, p: u128) -> (r: u128)
    requires
        p > 0,
    ensures
        r == round_div(a as int, p as int),
        r <= a,
        r == a / p || r == a / p + 1,
{
    proof {
        lemma_round_div_bound(a as int, p as int);
    }
    let q: u128 = a / p;
    let rem: u128 = a % p;
    if rem >= p - rem {
        q + 1
    } else {
        q
    }
}

/// `m / p` rounded to the nearest integer, a half rounded away from zero.
pub(crate) fn round_div_i128(m: i128, p: u128) -> (r: i128)
    requires
        p > 0,
        m > i128::MIN,
    ensures
        r == round_div(m as int, p as int),
{
    if m >= 0 {
        let n: u128 = round_div_u128(m as u128, p);
        n as i128
    } else {
        let n: u128 = round_div_u128((-m) as u128, p);
        -(n as i128)
    }
}

} // verus!
