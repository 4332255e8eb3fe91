use cp_amm_client::errors::CpAmmError;
use cp_amm_client::math::curve::{
    get_delta_amount_a_unsigned, get_delta_amount_a_unsigned_unchecked,
    get_delta_amount_b_unsigned, get_delta_amount_b_unsigned_unchecked, get_initialize_amounts,
    get_next_sqrt_price_from_amount_a_rounding_up, get_next_sqrt_price_from_amount_b_rounding_down,
    get_next_sqrt_price_from_input, RESOLUTION,
};
use cp_amm_client::math::wide::{Rounding, U256};

const ONE: u128 = 1 << 64;
const DEPTH: u128 = 1_000_000_000_000 << 64;

#[test]
fn resolution_is_64_bits() {
    assert_eq!(RESOLUTION, 64);
}

#[test]
fn delta_amount_a_rounds_both_ways() {
    let liquidity = DEPTH + 12345;
    let upper = ONE + ONE / 2;
    assert_eq!(
        get_delta_amount_a_unsigned(ONE, upper, liquidity, Rounding::Down),
        Ok(333_333_333_333)
    );
    assert_eq!(
        get_delta_amount_a_unsigned(ONE, upper, liquidity, Rounding::Up),
        Ok(333_333_333_334)
    );
}

#[test]
fn delta_amount_b_rounds_both_ways() {
    let liquidity = DEPTH + 12345;
    let upper = ONE + ONE / 2;
    assert_eq!(
        get_delta_amount_b_unsigned(ONE, upper, liquidity, Rounding::Down),
        Ok(500_000_000_000)
    );
    assert_eq!(
        get_delta_amount_b_unsigned(ONE, upper, liquidity, Rounding::Up),
        Ok(500_000_000_001)
    );
}

#[test]
fn delta_amounts_of_an_empty_range_are_zero() {
    for round in [Rounding::Up, Rounding::Down] {
        assert_eq!(get_delta_amount_a_unsigned(ONE, ONE, DEPTH, round), Ok(0));
        assert_eq!(get_delta_amount_b_unsigned(ONE, ONE, DEPTH, round), Ok(0));
        assert_eq!(get_delta_amount_b_unsigned(0, 0, DEPTH, round), Ok(0));
    }
}

#[test]
fn delta_amount_unchecked_is_wide() {
    // 2^128 - 1 of liquidity over a range of 2^127 in price is 2^127 - 1 of
    // token B, rounded down, which does not fit in 64 bits.
    let wide =
        get_delta_amount_b_unsigned_unchecked(0, 1 << 127, u128::MAX, Rounding::Down).unwrap();
    assert_eq!(wide, U256::from_u128((1 << 127) - 1));
    let wide =
        get_delta_amount_b_unsigned_unchecked(0, 1 << 127, u128::MAX, Rounding::Up).unwrap();
    assert_eq!(wide, U256::from_u128(1 << 127));
    // 2^128 - 1 of liquidity between the prices 1 and 2 (as raw integers) is
    // (2^128 - 1) / 2 of token A.
    let wide = get_delta_amount_a_unsigned_unchecked(1, 2, u128::MAX, Rounding::Down).unwrap();
    assert_eq!(wide, U256::from_u128(u128::MAX / 2));
    let wide = get_delta_amount_a_unsigned_unchecked(1, 2, u128::MAX, Rounding::Up).unwrap();
    assert_eq!(wide, U256::from_u128(u128::MAX / 2 + 1));
}

#[test]
fn delta_amount_that_does_not_fit_is_an_overflow() {
    assert_eq!(
        get_delta_amount_b_unsigned(0, 1 << 127, u128::MAX, Rounding::Down),
        Err(CpAmmError::MathOverflow)
    );
    assert_eq!(
        get_delta_amount_a_unsigned(1, 2, u128::MAX, Rounding::Up),
        Err(CpAmmError::MathOverflow)
    );
}

#[test]
fn delta_amount_at_the_edge_of_64_bits() {
    // L * 2^128 / 2^128 = L.
    let upper = 1u128 << 127;
    assert_eq!(get_delta_amount_b_unsigned(0, upper, 2 * (u64::MAX as u128), Rounding::Down), Ok(u64::MAX));
    assert_eq!(
        get_delta_amount_b_unsigned(0, upper, 2 * (u64::MAX as u128) + 2, Rounding::Down),
        Err(CpAmmError::MathOverflow)
    );
}

#[test]
fn initialize_amounts_round_up() {
    assert_eq!(
        get_initialize_amounts(ONE / 2, 2 * ONE, ONE, DEPTH),
        Ok((500_000_000_000, 500_000_000_000))
    );
    assert_eq!(
        get_initialize_amounts(ONE / 2, 2 * ONE, ONE, DEPTH + 1),
        Ok((500_000_000_001, 500_000_000_001))
    );
}

#[test]
fn initialize_amounts_overflow() {
    assert_eq!(get_initialize_amounts(0, 2, 1, u128::MAX), Err(CpAmmError::MathOverflow));
    assert_eq!(
        get_initialize_amounts(0, 1 << 127, 1 << 127, u128::MAX),
        Err(CpAmmError::MathOverflow)
    );
}

#[test]
fn next_price_from_token_a_rounds_up() {
    assert_eq!(
        get_next_sqrt_price_from_amount_a_rounding_up(ONE, DEPTH, 1_000_000),
        Ok(18446725626983924633)
    );
    assert_eq!(
        get_next_sqrt_price_from_input(ONE, DEPTH, 1_000_000, true),
        Ok(18446725626983924633)
    );
}

#[test]
fn next_price_from_token_b_rounds_down() {
    assert_eq!(
        get_next_sqrt_price_from_amount_b_rounding_down(ONE, DEPTH, 1_000_000),
        Ok(18446762520453625325)
    );
    assert_eq!(
        get_next_sqrt_price_from_input(ONE, DEPTH, 1_000_000, false),
        Ok(18446762520453625325)
    );
}

#[test]
fn zero_input_leaves_the_price() {
    assert_eq!(get_next_sqrt_price_from_amount_a_rounding_up(ONE, DEPTH, 0), Ok(ONE));
    assert_eq!(get_next_sqrt_price_from_amount_a_rounding_up(0, 0, 0), Ok(0));
    assert_eq!(get_next_sqrt_price_from_amount_b_rounding_down(ONE, DEPTH, 0), Ok(ONE));
    assert_eq!(get_next_sqrt_price_from_input(ONE, DEPTH, 0, true), Ok(ONE));
    assert_eq!(get_next_sqrt_price_from_input(ONE, DEPTH, 0, false), Ok(ONE));
}

#[test]
fn next_price_without_liquidity() {
    assert_eq!(
        get_next_sqrt_price_from_amount_a_rounding_up(0, 0, 5),
        Err(CpAmmError::MathOverflow)
    );
    assert_eq!(get_next_sqrt_price_from_amount_a_rounding_up(ONE, 0, 5), Ok(0));
    assert_eq!(
        get_next_sqrt_price_from_amount_b_rounding_down(ONE, 0, 5),
        Err(CpAmmError::MathOverflow)
    );
}

#[test]
fn next_price_from_token_b_that_does_not_fit() {
    assert_eq!(
        get_next_sqrt_price_from_amount_b_rounding_down(ONE, 1, 1),
        Err(CpAmmError::TypeCastFailed)
    );
    assert_eq!(
        get_next_sqrt_price_from_input(u128::MAX, 1 << 64, 1, false),
        Err(CpAmmError::TypeCastFailed)
    );
    // 2^128 / 2^65 = 2^63 still fits.
    assert_eq!(
        get_next_sqrt_price_from_amount_b_rounding_down(5, 1 << 65, 1),
        Ok((1 << 63) + 5)
    );
}

#[test]
fn round_trip_never_gives_more_than_came_in() {
    for (price, liquidity, amount) in [
        (ONE, DEPTH, 1_000_000u64),
        (ONE, DEPTH, 1),
        (ONE / 3, DEPTH + 7, 999_999_999),
        (3 * ONE, 12345 << 64, 77),
        (ONE, 1, u64::MAX),
        (u128::MAX, u128::MAX, u64::MAX),
    ] {
        let next = get_next_sqrt_price_from_input(price, liquidity, amount, true).unwrap();
        assert!(0 < next && next <= price);
        for round in [Rounding::Up, Rounding::Down] {
            let back = get_delta_amount_a_unsigned(next, price, liquidity, round).unwrap();
            assert!(back <= amount);
        }
    }
    let next = get_next_sqrt_price_from_input(ONE, DEPTH, 1_000_000, true).unwrap();
    assert_eq!(get_delta_amount_a_unsigned(next, ONE, DEPTH, Rounding::Up), Ok(1_000_000));
    assert_eq!(get_delta_amount_a_unsigned(next, ONE, DEPTH, Rounding::Down), Ok(999_999));
}

#[test]
fn larger_input_moves_the_price_further() {
    let amounts = [0u64, 1, 2, 1_000, 1_000_000, 1_000_000_000, u64::MAX / 2];
    for pair in amounts.windows(2) {
        let down_small = get_next_sqrt_price_from_input(ONE, DEPTH, pair[0], true).unwrap();
        let down_large = get_next_sqrt_price_from_input(ONE, DEPTH, pair[1], true).unwrap();
        assert!(ONE - down_small <= ONE - down_large);
        let up_small = get_next_sqrt_price_from_input(ONE, DEPTH, pair[0], false).unwrap();
        let up_large = get_next_sqrt_price_from_input(ONE, DEPTH, pair[1], false).unwrap();
        assert!(up_small - ONE <= up_large - ONE);
    }
}

#[test]
fn example_next_price_and_output_from_token_a() {
    let sqrt_price: u128 = 1 << 64;
    let liquidity: u128 = 1_000_000_000_000;
    let next = get_next_sqrt_price_from_input(sqrt_price, liquidity, 1_000_000, true).unwrap();
    assert!(next < sqrt_price);
    assert_eq!(next, 1_000_000);
    assert_eq!(get_delta_amount_b_unsigned(next, sqrt_price, liquidity, Rounding::Down), Ok(0));
}
