//! Facts about division on the natural numbers that the curve's proofs use.

use crate::math::wide::{div_ceil_spec, pow2_128, pow2_256, pow2_64};
use vstd::arithmetic::div_mod::{lemma_div_is_ordered, lemma_fundamental_div_mod};
use vstd::arithmetic::power2::{lemma2_to64, lemma_pow2_adds, pow2};
use vstd::prelude::*;

verus! {

/// `pow2` at 64 and at 128 is what the constants of this crate say.
pub proof fn lemma_pow2_constants()
    ensures
        pow2(64) == pow2_64(),
        pow2(128) == pow2_128(),
{
    lemma2_to64();
    lemma_pow2_adds(64, 64);
}

/// The product of two numbers below two to the power 128 is below two to the
/// power 256.
pub proof fn lemma_mul_u128_fits(a: nat, b: nat)
    requires
        a < pow2_128(),
        b < pow2_128(),
    ensures
        a * b < pow2_256(),
{
    let bound = pow2_128();
    assert(a * b < bound * bound) by (nonlinear_arith)
        requires
            a < bound,
            b < bound,
    ;
}

/// A quotient and its remainder give the dividend back.
pub proof fn lemma_div_mod_nat(n: nat, d: nat)
    requires
        d > 0,
    ensures
        n == d * (n / d) + n % d,
        n % d < d,
        d * (n / d) <= n,
{
    lemma_fundamental_div_mod(n as int, d as int);
}

/// The quotient rounded up, times the divisor, reaches the dividend, and
/// overshoots it by less than the divisor.
pub proof fn lemma_div_ceil_bounds(n: nat, d: nat)
    requires
        d > 0,
    ensures
        n <= div_ceil_spec(n, d) * d,
        div_ceil_spec(n, d) * d < n + d,
        n / d <= div_ceil_spec(n, d) <= n / d + 1,
{
    lemma_div_mod_nat(n, d);
    let q = n / d;
    assert((q + 1) * d == q * d + d) by (nonlinear_arith);
    assert(q * d == d * q) by (nonlinear_arith);
}

/// Neither quotient exceeds the dividend.
pub proof fn lemma_div_le_dividend(n: nat, d: nat)
    requires
        d > 0,
    ensures
        n / d <= n,
        div_ceil_spec(n, d) <= n,
{
    lemma_div_mod_nat(n, d);
    let q = n / d;
    assert(q <= d * q) by (nonlinear_arith)
        requires
            d > 0,
    ;
    if n % d != 0 {
        assert(q + 1 <= d * q + n % d);
    }
}

/// Where the dividend is at most `d * k`, the quotient rounded up is at most
/// `k`.
pub proof fn lemma_div_ceil_le(n: nat, d: nat, k: nat)
    requires
        d > 0,
        n <= d * k,
    ensures
        div_ceil_spec(n, d) <= k,
{
    lemma_div_mod_nat(n, d);
    let q = n / d;
    if q >= k {
        assert(d * q >= d * k) by (nonlinear_arith)
            requires
                q >= k,
        ;
    }
    if q > k {
        assert(d * q >= d * k + d) by (nonlinear_arith)
            requires
                q >= k + 1,
        ;
    }
}

/// The quotient rounded down grows with the dividend.
pub proof fn lemma_div_monotone(n: nat, m: nat, d: nat)
    requires
        d > 0,
        n <= m,
    ensures
        n / d <= m / d,
{
    lemma_div_is_ordered(n as int, m as int, d as int);
}

/// The quotient rounded up shrinks as the divisor grows.
pub proof fn lemma_div_ceil_antitone(n: nat, d: nat, e: nat)
    requires
        0 < d <= e,
    ensures
        div_ceil_spec(n, e) <= div_ceil_spec(n, d),
{
    lemma_div_ceil_bounds(n, d);
    let k = div_ceil_spec(n, d);
    assert(k * d <= e * k) by (nonlinear_arith)
        requires
            d <= e,
    ;
    lemma_div_ceil_le(n, e, k);
}

} // verus!
