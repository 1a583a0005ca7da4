//! Decimal rounding of exact ratios, half away from zero.
//!
//! A rounded value at precision `p` is represented by the integer number of
//! units of `10^-p` that it holds: `round(11156, 10000, 3) == 1116` stands for
//! `1.1156` rounded to `1.116`.
use vstd::arithmetic::div_mod::{
    lemma_div_is_ordered, lemma_fundamental_div_mod_converse,
};
use vstd::arithmetic::mul::lemma_mul_inequality;
use vstd::prelude::*;

verus! {

/// The largest magnitude that a scaled numerator or a denominator may have,
/// so that the rounding arithmetic stays within `i128`.
pub const MAX_MAGNITUDE: i128 = 0x2000_0000_0000_0000_0000_0000_0000_0000;

/// `10^p`.
pub open spec fn pow10(p: nat) -> int
    decreases p,
{
    if p == 0 {
        1
    } else {
        10 * pow10((p - 1) as nat)
    }
}

pub open spec fn abs(x: int) -> int {
    if x < 0 {
        -x
    } else {
        x
    }
}

/// The integer nearest to `n / d`, ties away from zero:
/// `sgn(n / d) * floor(|n / d| + 1/2)`.
pub open spec fn round_half_away(n: int, d: int) -> int
    recommends
        d != 0,
{
    let m = (2 * abs(n) + abs(d)) / (2 * abs(d));
    if (n < 0) != (d < 0) {
        -m
    } else {
        m
    }
}

/// `n / d` rounded half away from zero to `p` decimal digits, as a count of
/// units of `10^-p`.
pub open spec fn rounded(n: int, d: int, p: nat) -> int
    recommends
        d != 0,
{
    round_half_away(n * pow10(p), d)
}

/// Whether `round(num, den, precision)` can be computed within `i128`.
pub open spec fn round_in_range(num: int, den: int, precision: nat) -> bool {
    &&& den != 0
    &&& precision <= 37
    &&& abs(num * pow10(precision)) <= MAX_MAGNITUDE
    &&& abs(den) <= MAX_MAGNITUDE
}

proof fn lemma_pow10_monotone(p: nat, q: nat)
    requires
        p <= q,
    ensures
        1 <= pow10(p) <= pow10(q),
    decreases q,
{
    if p < q {
        lemma_pow10_monotone(p, (q - 1) as nat);
    } else if p > 0 {
        lemma_pow10_monotone((p - 1) as nat, (p - 1) as nat);
    }
}

proof fn lemma_pow10_bounds(p: nat)
    requires
        p <= 37,
    ensures
        1 <= pow10(p) <= 10_000_000_000_000_000_000_000_000_000_000_000_000,
{
    lemma_pow10_monotone(p, 37);
    reveal_with_fuel(pow10, 38);
}

/// `10^p` as an integer.
pub fn pow10_exec(p: u32) -> (r: i128)
    requires
        p <= 37,
    ensures
        r == pow10(p as nat),
{
    let mut r: i128 = 1;
    let mut i: u32 = 0;
    while i < p
        invariant
            i <= p <= 37,
            r == pow10(i as nat),
        decreases p - i,
    {
        proof {
            lemma_pow10_bounds((i + 1) as nat);
        }
        r = r * 10;
        i = i + 1;
    }
    r
}

/// Rounds `num / den` half away from zero to `precision` decimal digits, and
/// returns the result as a count of units of `10^-precision`.
pub fn round(num: i128, den: i128, precision: u32) -> (r: i128)
    requires
        round_in_range(num as int, den as int, precision as nat),
    ensures
        r == rounded(num as int, den as int, precision as nat),
{
    proof {
        lemma_pow10_bounds(precision as nat);
    }
    let scale = pow10_exec(precision);
    assert(abs(num * scale) <= MAX_MAGNITUDE);
    assert(-MAX_MAGNITUDE <= num * scale <= MAX_MAGNITUDE);
    let n = num * scale;
    let a: i128 = if n < 0 { -n } else { n };
    let b: i128 = if den < 0 { -den } else { den };
    let m = (2 * a + b) / (2 * b);
    if (n < 0) != (den < 0) {
        -m
    } else {
        m
    }
}

/// A whole number of units survives rounding unchanged.
pub proof fn lemma_round_of_multiple(k: int, m: int)
    requires
        m > 0,
    ensures
        round_half_away(k * m, m) == k,
{
    let ak = abs(k);
    assert(abs(k * m) == ak * m) by (nonlinear_arith)
        requires
            m > 0,
            ak == abs(k),
    ;
    assert(2 * (ak * m) + m == ak * (2 * m) + m) by (nonlinear_arith);
    lemma_fundamental_div_mod_converse(2 * (ak * m) + m, 2 * m, ak, m);
    assert((k * m < 0) == (k < 0)) by (nonlinear_arith)
        requires
            m > 0,
    ;
}

/// Rounding is idempotent: a value already rounded to `p` digits, read back
/// as a ratio over `10^p`, rounds to itself at `p` digits.
pub proof fn lemma_round_idempotent(num: int, den: int, p: nat)
    requires
        den != 0,
    ensures
        rounded(rounded(num, den, p), pow10(p), p) == rounded(num, den, p),
{
    lemma_pow10_monotone(p, p);
    lemma_round_of_multiple(rounded(num, den, p), pow10(p));
}

/// Rounding a ratio of non-negative numerators over one positive denominator
/// keeps their order, and the results are non-negative.
pub proof fn lemma_round_monotone(n1: int, n2: int, d: int, p: nat)
    requires
        0 <= n1 <= n2,
        d > 0,
    ensures
        0 <= rounded(n1, d, p) <= rounded(n2, d, p),
{
    lemma_pow10_monotone(p, p);
    lemma_mul_inequality(n1, n2, pow10(p));
    assert(0 <= n1 * pow10(p)) by (nonlinear_arith)
        requires
            0 <= n1,
            1 <= pow10(p),
    ;
    lemma_div_is_ordered(2 * (n1 * pow10(p)) + d, 2 * (n2 * pow10(p)) + d, 2 * d);
    lemma_div_is_ordered(0, 2 * (n1 * pow10(p)) + d, 2 * d);
}

} // verus!
