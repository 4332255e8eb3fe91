//! The price curve: token amounts over a range of square-root prices, and
//! the price after an input.
//!
//! A square-root price is a fixed-point number with 64 fractional bits.

use crate::errors::CpAmmError;
use crate::math::lemmas::{
    lemma_div_ceil_antitone,
    lemma_div_ceil_bounds,
    lemma_div_ceil_le,
    lemma_div_le_dividend,
    lemma_div_monotone,
    lemma_mul_u128_fits,
    lemma_pow2_constants,
};
use crate::math::wide::{
    div_ceil_spec,
    mul_div_spec,
    mul_div_u256,
    pow2_128,
    pow2_64,
    u256_checked_add,
    u256_checked_div,
    u256_checked_mul,
    u256_checked_shl,
    u256_div_ceil,
    u256_overflowing_shr,
    Rounding,
    U256,
};
use vstd::prelude::*;

verus! {

/// The number of fractional bits of a square-root price.
pub const RESOLUTION: u8 = 64;

/// The amount of token A that liquidity `liquidity` holds between two
/// square-root prices: `L * (upper - lower) / (upper * lower)`.
pub open spec fn delta_amount_a_spec(lower: nat, upper: nat, liquidity: nat, round: Rounding) -> nat
    recommends
        0 < lower <= upper,
{
    mul_div_spec(liquidity, (upper - lower) as nat, lower * upper, round)
}

/// The amount of token B that liquidity `liquidity` holds between two
/// square-root prices: `L * (upper - lower)`, scaled down by two to the
/// power 128.
pub open spec fn delta_amount_b_spec(lower: nat, upper: nat, liquidity: nat, round: Rounding) -> nat
    recommends
        lower <= upper,
{
    mul_div_spec(liquidity, (upper - lower) as nat, pow2_128(), round)
}

/// The square-root price after `amount` of token A has come in:
/// `L * P / (L + amount * P)`, rounded up.
pub open spec fn next_sqrt_price_from_amount_a_spec(sqrt_price: nat, liquidity: nat, amount: nat) -> nat {
    if amount == 0 {
        sqrt_price
    } else {
        div_ceil_spec(liquidity * sqrt_price, liquidity + amount * sqrt_price)
    }
}

/// The square-root price after `amount` of token B has come in:
/// `P + amount * 2^128 / L`, the quotient rounded down.
pub open spec fn next_sqrt_price_from_amount_b_spec(sqrt_price: nat, liquidity: nat, amount: nat) -> nat
    recommends
        liquidity > 0,
{
    sqrt_price + (amount * pow2_128()) / liquidity
}

/// The square-root price after `amount_in` of the input token has come in.
pub open spec fn next_sqrt_price_from_input_spec(
    sqrt_price: nat,
    liquidity: nat,
    amount_in: nat,
    a_for_b: bool,
) -> nat {
    if a_for_b {
        next_sqrt_price_from_amount_a_spec(sqrt_price, liquidity, amount_in)
    } else {
        next_sqrt_price_from_amount_b_spec(sqrt_price, liquidity, amount_in)
    }
}

/// The amount of token A between two square-root prices, as a wide integer.
pub fn get_delta_amount_a_unsigned_unchecked(
    lower_sqrt_price: u128,
    upper_sqrt_price: u128,
    liquidity: u128,
    round: Rounding,
) -> (r: Result<U256, CpAmmError>)
    requires
        0 < lower_sqrt_price <= upper_sqrt_price,
    ensures
        r.is_ok(),
        r.unwrap().value() == delta_amount_a_spec(
            lower_sqrt_price as nat,
            upper_sqrt_price as nat,
            liquidity as nat,
            round,
        ),
{
    let numerator_1 = U256::from_u128(liquidity);
    let numerator_2 = U256::from_u128(upper_sqrt_price - lower_sqrt_price);
    proof {
        lemma_mul_u128_fits(lower_sqrt_price as nat, upper_sqrt_price as nat);
        lemma_mul_u128_fits(liquidity as nat, (upper_sqrt_price - lower_sqrt_price) as nat);
        let (l, u) = (lower_sqrt_price as nat, upper_sqrt_price as nat);
        assert(l * u > 0) by (nonlinear_arith)
            requires
                l > 0,
                u > 0,
        ;
        lemma_div_le_dividend(
            (liquidity as nat) * ((upper_sqrt_price - lower_sqrt_price) as nat),
            l * u,
        );
    }
    let denominator = match u256_checked_mul(
        U256::from_u128(lower_sqrt_price),
        U256::from_u128(upper_sqrt_price),
    ) {
        Some(d) => d,
        None => { return Err(CpAmmError::MathOverflow); },
    };
    mul_div_u256(numerator_1, numerator_2, denominator, round)
}

/// The amount of token A between two square-root prices.
///
/// Fails with `MathOverflow` where the amount does not fit in 64 bits.
pub fn get_delta_amount_a_unsigned(
    lower_sqrt_price: u128,
    upper_sqrt_price: u128,
    liquidity: u128,
    round: Rounding,
) -> (r: Result<u64, CpAmmError>)
    requires
        0 < lower_sqrt_price <= upper_sqrt_price,
    ensures
        ({
            let amount = delta_amount_a_spec(
                lower_sqrt_price as nat,
                upper_sqrt_price as nat,
                liquidity as nat,
                round,
            );
            if amount <= u64::MAX {
                r == Ok::<u64, CpAmmError>(amount as u64)
            } else {
                r == Err::<u64, CpAmmError>(CpAmmError::MathOverflow)
            }
        }),
{
    let result = get_delta_amount_a_unsigned_unchecked(
        lower_sqrt_price,
        upper_sqrt_price,
        liquidity,
        round,
    )?;
    if !result.le(&U256::from_u64(u64::MAX)) {
        return Err(CpAmmError::MathOverflow);
    }
    match result.to_u64() {
        Some(amount) => Ok(amount),
        None => Err(CpAmmError::TypeCastFailed),
    }
}

/// The amount of token B between two square-root prices, as a wide integer.
pub fn get_delta_amount_b_unsigned_unchecked(
    lower_sqrt_price: u128,
    upper_sqrt_price: u128,
    liquidity: u128,
    round: Rounding,
) -> (r: Result<U256, CpAmmError>)
    requires
        lower_sqrt_price <= upper_sqrt_price,
    ensures
        r.is_ok(),
        r.unwrap().value() == delta_amount_b_spec(
            lower_sqrt_price as nat,
            upper_sqrt_price as nat,
            liquidity as nat,
            round,
        ),
{
    let liquidity = U256::from_u128(liquidity);
    let delta_sqrt_price = U256::from_u128(upper_sqrt_price - lower_sqrt_price);
    proof {
        lemma_mul_u128_fits(liquidity.value(), delta_sqrt_price.value());
        lemma_pow2_constants();
    }
    let prod = match u256_checked_mul(liquidity, delta_sqrt_price) {
        Some(p) => p,
        None => { return Err(CpAmmError::MathOverflow); },
    };
    match round {
        Rounding::Up => {
            let denominator = match u256_checked_shl(U256::from_u64(1), 128) {
                Some(d) => d,
                None => { return Err(CpAmmError::MathOverflow); },
            };
            Ok(u256_div_ceil(prod, denominator))
        },
        Rounding::Down => {
            let (result, _) = u256_overflowing_shr(prod, 128);
            Ok(result)
        },
    }
}

/// The amount of token B between two square-root prices.
///
/// Fails with `MathOverflow` where the amount does not fit in 64 bits.
pub fn get_delta_amount_b_unsigned(
    lower_sqrt_price: u128,
    upper_sqrt_price: u128,
    liquidity: u128,
    round: Rounding,
) -> (r: Result<u64, CpAmmError>)
    requires
        lower_sqrt_price <= upper_sqrt_price,
    ensures
        ({
            let amount = delta_amount_b_spec(
                lower_sqrt_price as nat,
                upper_sqrt_price as nat,
                liquidity as nat,
                round,
            );
            if amount <= u64::MAX {
                r == Ok::<u64, CpAmmError>(amount as u64)
            } else {
                r == Err::<u64, CpAmmError>(CpAmmError::MathOverflow)
            }
        }),
{
    let result = get_delta_amount_b_unsigned_unchecked(
        lower_sqrt_price,
        upper_sqrt_price,
        liquidity,
        round,
    )?;
    if !result.le(&U256::from_u64(u64::MAX)) {
        return Err(CpAmmError::MathOverflow);
    }
    match result.to_u64() {
        Some(amount) => Ok(amount),
        None => Err(CpAmmError::TypeCastFailed),
    }
}

/// The amounts of token A and token B that a pool of liquidity `liquidity`
/// holds at `sqrt_price` within its price bounds, both rounded up.
///
/// Fails with `MathOverflow` where an amount does not fit in 64 bits.
pub fn get_initialize_amounts(
    sqrt_min_price: u128,
    sqrt_max_price: u128,
    sqrt_price: u128,
    liquidity: u128,
) -> (r: Result<(u64, u64), CpAmmError>)
    requires
        sqrt_min_price <= sqrt_price <= sqrt_max_price,
        sqrt_price > 0,
    ensures
        ({
            let amount_a = delta_amount_a_spec(
                sqrt_price as nat,
                sqrt_max_price as nat,
                liquidity as nat,
                Rounding::Up,
            );
            let amount_b = delta_amount_b_spec(
                sqrt_min_price as nat,
                sqrt_price as nat,
                liquidity as nat,
                Rounding::Up,
            );
            if amount_a <= u64::MAX && amount_b <= u64::MAX {
                r == Ok::<(u64, u64), CpAmmError>((amount_a as u64, amount_b as u64))
            } else {
                r == Err::<(u64, u64), CpAmmError>(CpAmmError::MathOverflow)
            }
        }),
{
    let amount_a = get_delta_amount_a_unsigned(
        sqrt_price,
        sqrt_max_price,
        liquidity,
        Rounding::Up,
    )?;
    let amount_b = get_delta_amount_b_unsigned(
        sqrt_min_price,
        sqrt_price,
        liquidity,
        Rounding::Up,
    )?;
    Ok((amount_a, amount_b))
}

/// The square-root price after `amount` of token A has come in, rounded up.
///
/// A zero amount leaves the price as it is. Fails with `MathOverflow` where
/// price and liquidity are both zero and the amount is not.
pub fn get_next_sqrt_price_from_amount_a_rounding_up(
    sqrt_price: u128,
    liquidity: u128,
    amount: u64,
) -> (r: Result<u128, CpAmmError>)
    ensures
        ({
            let next = next_sqrt_price_from_amount_a_spec(
                sqrt_price as nat,
                liquidity as nat,
                amount as nat,
            );
            if amount > 0 && liquidity == 0 && sqrt_price == 0 {
                r == Err::<u128, CpAmmError>(CpAmmError::MathOverflow)
            } else {
                next <= sqrt_price && r == Ok::<u128, CpAmmError>(next as u128)
            }
        }),
{
    if amount == 0 {
        return Ok(sqrt_price);
    }
    let price = U256::from_u128(sqrt_price);
    let depth = U256::from_u128(liquidity);
    proof {
        lemma_mul_u128_fits(amount as nat, sqrt_price as nat);
        lemma_mul_u128_fits(liquidity as nat, sqrt_price as nat);
        let (a, p, l) = (amount as nat, sqrt_price as nat, liquidity as nat);
        assert(a * p < pow2_64() * pow2_128()) by (nonlinear_arith)
            requires
                a < pow2_64(),
                p < pow2_128(),
        ;
        assert(a * p == 0 <==> p == 0) by (nonlinear_arith)
            requires
                a > 0,
        ;
        assert(l * p <= (l + a * p) * p) by (nonlinear_arith);
        if l + a * p > 0 {
            lemma_div_ceil_le(l * p, l + a * p, p);
        }
    }
    let product = match u256_checked_mul(U256::from_u64(amount), price) {
        Some(x) => x,
        None => { return Err(CpAmmError::MathOverflow); },
    };
    let denominator = match u256_checked_add(depth, product) {
        Some(x) => x,
        None => { return Err(CpAmmError::MathOverflow); },
    };
    let result = mul_div_u256(depth, price, denominator, Rounding::Up)?;
    match result.to_u128() {
        Some(next) => Ok(next),
        None => Err(CpAmmError::TypeCastFailed),
    }
}

/// The square-root price after `amount` of token B has come in, rounded
/// down.
///
/// Fails with `MathOverflow` where the liquidity is zero, and with
/// `TypeCastFailed` where the price does not fit in 128 bits.
pub fn get_next_sqrt_price_from_amount_b_rounding_down(
    sqrt_price: u128,
    liquidity: u128,
    amount: u64,
) -> (r: Result<u128, CpAmmError>)
    ensures
        ({
            let next = next_sqrt_price_from_amount_b_spec(
                sqrt_price as nat,
                liquidity as nat,
                amount as nat,
            );
            if liquidity == 0 {
                r == Err::<u128, CpAmmError>(CpAmmError::MathOverflow)
            } else if next > u128::MAX {
                r == Err::<u128, CpAmmError>(CpAmmError::TypeCastFailed)
            } else {
                r == Ok::<u128, CpAmmError>(next as u128)
            }
        }),
{
    proof {
        lemma_pow2_constants();
        let a = amount as nat;
        assert(a * pow2_128() < pow2_64() * pow2_128()) by (nonlinear_arith)
            requires
                a < pow2_64(),
        ;
        if liquidity > 0 {
            lemma_div_le_dividend(a * pow2_128(), liquidity as nat);
        }
    }
    let shifted = match u256_checked_shl(U256::from_u64(amount), 128) {
        Some(x) => x,
        None => { return Err(CpAmmError::MathOverflow); },
    };
    let quotient = match u256_checked_div(shifted, U256::from_u128(liquidity)) {
        Some(x) => x,
        None => { return Err(CpAmmError::MathOverflow); },
    };
    let result = match u256_checked_add(U256::from_u128(sqrt_price), quotient) {
        Some(x) => x,
        None => { return Err(CpAmmError::MathOverflow); },
    };
    match result.to_u128() {
        Some(next) => Ok(next),
        None => Err(CpAmmError::TypeCastFailed),
    }
}

/// The square-root price after `amount_in` of token A (`a_for_b`) or of
/// token B has come in, rounded so that the price never moves further than
/// the exact answer.
///
/// Fails with `TypeCastFailed` where token B comes in and the price does not
/// fit in 128 bits.
pub fn get_next_sqrt_price_from_input(
    sqrt_price: u128,
    liquidity: u128,
    amount_in: u64,
    a_for_b: bool,
) -> (r: Result<u128, CpAmmError>)
    requires
        sqrt_price > 0,
        liquidity > 0,
    ensures
        ({
            let next = next_sqrt_price_from_input_spec(
                sqrt_price as nat,
                liquidity as nat,
                amount_in as nat,
                a_for_b,
            );
            if next > u128::MAX {
                r == Err::<u128, CpAmmError>(CpAmmError::TypeCastFailed)
            } else {
                r == Ok::<u128, CpAmmError>(next as u128)
            }
        }),
        a_for_b ==> r.is_ok() && 0 < r.unwrap() <= sqrt_price,
        !a_for_b && r.is_ok() ==> r.unwrap() >= sqrt_price,
{
    if a_for_b {
        proof {
            lemma_next_sqrt_price_from_amount_a_is_positive(
                sqrt_price as nat,
                liquidity as nat,
                amount_in as nat,
            );
        }
        get_next_sqrt_price_from_amount_a_rounding_up(sqrt_price, liquidity, amount_in)
    } else {
        get_next_sqrt_price_from_amount_b_rounding_down(sqrt_price, liquidity, amount_in)
    }
}

/// With a positive price and positive liquidity, the price after an input of
/// token A is positive and at most the price before.
pub proof fn lemma_next_sqrt_price_from_amount_a_is_positive(
    sqrt_price: nat,
    liquidity: nat,
    amount: nat,
)
    requires
        sqrt_price > 0,
        liquidity > 0,
    ensures
        0 < next_sqrt_price_from_amount_a_spec(sqrt_price, liquidity, amount) <= sqrt_price,
{
    if amount > 0 {
        let (a, p, l) = (amount, sqrt_price, liquidity);
        assert(l * p > 0) by (nonlinear_arith)
            requires
                l > 0,
                p > 0,
        ;
        assert(l * p <= (l + a * p) * p) by (nonlinear_arith);
        lemma_div_ceil_le(l * p, l + a * p, p);
        lemma_div_ceil_bounds(l * p, l + a * p);
        let k = div_ceil_spec(l * p, l + a * p);
        if k == 0 {
            assert(k * (l + a * p) == 0) by (nonlinear_arith)
                requires
                    k == 0,
            ;
        }
    }
}

/// How far the square-root price `next` lies from `sqrt_price`.
pub open spec fn price_move(sqrt_price: nat, next: nat) -> nat {
    if next >= sqrt_price {
        (next - sqrt_price) as nat
    } else {
        (sqrt_price - next) as nat
    }
}

/// Rounding favours the pool: the amount of token A between the price
/// before an input of token A and the price after it, rounded either way, is
/// never more than the amount that came in.
pub proof fn lemma_round_trip_amount_a(
    sqrt_price: nat,
    liquidity: nat,
    amount_in: nat,
    round: Rounding,
)
    requires
        sqrt_price > 0,
        liquidity > 0,
    ensures
        delta_amount_a_spec(
            next_sqrt_price_from_amount_a_spec(sqrt_price, liquidity, amount_in),
            sqrt_price,
            liquidity,
            round,
        ) <= amount_in,
{
    let (a, p, l) = (amount_in, sqrt_price, liquidity);
    let k = next_sqrt_price_from_amount_a_spec(p, l, a);
    lemma_next_sqrt_price_from_amount_a_is_positive(p, l, a);
    let d = k * p;
    let n = l * ((p - k) as nat);
    assert(d > 0) by (nonlinear_arith)
        requires
            d == k * p,
            k > 0,
            p > 0,
    ;
    if a == 0 {
        assert(n == 0) by (nonlinear_arith)
            requires
                n == l * ((p - k) as nat),
                p == k,
        ;
        assert(0nat % d == 0 && 0nat / d == 0) by (nonlinear_arith)
            requires
                d > 0,
        ;
    } else {
        lemma_div_ceil_bounds(l * p, l + a * p);
        assert(n <= d * a) by (nonlinear_arith)
            requires
                l * p <= k * (l + a * p),
                k <= p,
                d == k * p,
                n == l * ((p - k) as nat),
        ;
        lemma_div_ceil_le(n, d, a);
        lemma_div_ceil_bounds(n, d);
    }
}

/// A larger input never moves the square-root price less: token A moves it
/// down, token B moves it up, and in either direction the distance from the
/// price before grows with the amount.
pub proof fn lemma_price_move_is_monotone(
    sqrt_price: nat,
    liquidity: nat,
    smaller: nat,
    larger: nat,
    a_for_b: bool,
)
    requires
        sqrt_price > 0,
        liquidity > 0,
        smaller <= larger,
    ensures
        price_move(
            sqrt_price,
            next_sqrt_price_from_input_spec(sqrt_price, liquidity, smaller, a_for_b),
        ) <= price_move(
            sqrt_price,
            next_sqrt_price_from_input_spec(sqrt_price, liquidity, larger, a_for_b),
        ),
        a_for_b ==> next_sqrt_price_from_input_spec(sqrt_price, liquidity, larger, a_for_b)
            <= next_sqrt_price_from_input_spec(sqrt_price, liquidity, smaller, a_for_b)
            <= sqrt_price,
        !a_for_b ==> sqrt_price <= next_sqrt_price_from_input_spec(
            sqrt_price,
            liquidity,
            smaller,
            a_for_b,
        ) <= next_sqrt_price_from_input_spec(sqrt_price, liquidity, larger, a_for_b),
{
    let (p, l) = (sqrt_price, liquidity);
    if a_for_b {
        lemma_next_sqrt_price_from_amount_a_is_positive(p, l, smaller);
        lemma_next_sqrt_price_from_amount_a_is_positive(p, l, larger);
        if smaller > 0 {
            assert(l + smaller * p <= l + larger * p) by (nonlinear_arith)
                requires
                    smaller <= larger,
            ;
            lemma_div_ceil_antitone(l * p, l + smaller * p, l + larger * p);
        }
    } else {
        assert(smaller * pow2_128() <= larger * pow2_128()) by (nonlinear_arith)
            requires
                smaller <= larger,
        ;
        lemma_div_monotone(smaller * pow2_128(), larger * pow2_128(), l);
    }
}

} // verus!
