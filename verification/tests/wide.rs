use cp_amm_client::errors::CpAmmError;
use cp_amm_client::math::wide::{mul_div_u256, safe_mul_div_cast_u64, Rounding, U256, U512};

const X: U256 = U256 { limbs: [12345, 0, 0, 256] };
const Y: U256 = U256 { limbs: [999, 0, 4503599627370496, 0] };
const D: U256 = U256 { limbs: [7, 0, 4, 0] };

#[test]
fn from_u128_splits_into_limbs() {
    let x = U256::from_u128((5u128 << 64) + 9);
    assert_eq!(x.limbs, [9, 5, 0, 0]);
    assert_eq!(U256::from_u128(u128::MAX).limbs, [u64::MAX, u64::MAX, 0, 0]);
    assert_eq!(U256::from_u64(77).limbs, [77, 0, 0, 0]);
}

#[test]
fn narrowing_keeps_values_that_fit() {
    assert_eq!(U256::from_u64(u64::MAX).to_u64(), Some(u64::MAX));
    assert_eq!(U256 { limbs: [0, 1, 0, 0] }.to_u64(), None);
    assert_eq!(U256::from_u128(u128::MAX).to_u128(), Some(u128::MAX));
    assert_eq!(U256 { limbs: [3, 4, 0, 0] }.to_u128(), Some((4u128 << 64) + 3));
    assert_eq!(U256 { limbs: [0, 0, 1, 0] }.to_u128(), None);
    assert_eq!(U256 { limbs: [0, 0, 0, 1] }.to_u128(), None);
}

#[test]
fn is_zero_looks_at_every_limb() {
    assert!(U256::from_u64(0).is_zero());
    assert!(!U256 { limbs: [0, 0, 0, 1] }.is_zero());
    assert!(!U256 { limbs: [1, 0, 0, 0] }.is_zero());
}

#[test]
fn le_orders_by_value() {
    let small = U256 { limbs: [u64::MAX, 0, 0, 0] };
    let large = U256 { limbs: [0, 1, 0, 0] };
    assert!(small.le(&large));
    assert!(!large.le(&small));
    assert!(large.le(&large));
    assert!(U256 { limbs: [9, 9, 9, 1] }.le(&U256 { limbs: [0, 0, 0, 2] }));
    assert!(!U256 { limbs: [0, 0, 5, 1] }.le(&U256 { limbs: [9, 9, 4, 1] }));
}

#[test]
fn widening_and_narrowing_512() {
    let wide = U512::from_u256(X);
    assert_eq!(wide.limbs, [12345, 0, 0, 256, 0, 0, 0, 0]);
    assert_eq!(wide.to_u256(), Some(X));
    assert_eq!(U512 { limbs: [0, 0, 0, 0, 1, 0, 0, 0] }.to_u256(), None);
    assert_eq!(U512 { limbs: [0, 0, 0, 0, 0, 0, 0, 1] }.to_u256(), None);
}

#[test]
fn mul_div_rounds_down() {
    let q = mul_div_u256(X, Y, D, Rounding::Down).unwrap();
    assert_eq!(
        q.limbs,
        [13899234349972193280, 17942340915444120000, 18446744073709551615, 288230376151711743]
    );
}

#[test]
fn mul_div_rounds_up() {
    let q = mul_div_u256(X, Y, D, Rounding::Up).unwrap();
    assert_eq!(
        q.limbs,
        [13899234349972193281, 17942340915444120000, 18446744073709551615, 288230376151711743]
    );
}

#[test]
fn mul_div_exact_quotient_is_the_same_both_ways() {
    let six = U256::from_u64(6);
    let seven = U256::from_u64(7);
    let three = U256::from_u64(3);
    assert_eq!(mul_div_u256(six, seven, three, Rounding::Down), Ok(U256::from_u64(14)));
    assert_eq!(mul_div_u256(six, seven, three, Rounding::Up), Ok(U256::from_u64(14)));
    let four = U256::from_u64(4);
    assert_eq!(mul_div_u256(six, seven, four, Rounding::Down), Ok(U256::from_u64(10)));
    assert_eq!(mul_div_u256(six, seven, four, Rounding::Up), Ok(U256::from_u64(11)));
}

#[test]
fn mul_div_uses_the_whole_product() {
    // (2^256 - 1)^2 / (2^256 - 1) needs all 512 bits of the product.
    let max = U256 { limbs: [u64::MAX; 4] };
    assert_eq!(mul_div_u256(max, max, max, Rounding::Down), Ok(max));
    assert_eq!(mul_div_u256(max, max, max, Rounding::Up), Ok(max));
}

#[test]
fn mul_div_by_zero_is_an_overflow() {
    let zero = U256::from_u64(0);
    assert_eq!(mul_div_u256(X, Y, zero, Rounding::Down), Err(CpAmmError::MathOverflow));
    assert_eq!(mul_div_u256(X, Y, zero, Rounding::Up), Err(CpAmmError::MathOverflow));
}

#[test]
fn mul_div_quotient_too_wide_is_an_overflow() {
    let max = U256 { limbs: [u64::MAX; 4] };
    let two = U256::from_u64(2);
    let one = U256::from_u64(1);
    assert_eq!(mul_div_u256(max, two, one, Rounding::Down), Err(CpAmmError::MathOverflow));
    assert_eq!(mul_div_u256(max, two, one, Rounding::Up), Err(CpAmmError::MathOverflow));
}

#[test]
fn mul_div_on_64_bits() {
    assert_eq!(safe_mul_div_cast_u64(10, 10, 3, Rounding::Down), Ok(33));
    assert_eq!(safe_mul_div_cast_u64(10, 10, 3, Rounding::Up), Ok(34));
    assert_eq!(safe_mul_div_cast_u64(u64::MAX, u64::MAX, u64::MAX, Rounding::Up), Ok(u64::MAX));
    assert_eq!(safe_mul_div_cast_u64(0, 5, 9, Rounding::Up), Ok(0));
}

#[test]
fn mul_div_on_64_bits_fails() {
    assert_eq!(safe_mul_div_cast_u64(1, 1, 0, Rounding::Down), Err(CpAmmError::MathOverflow));
    assert_eq!(
        safe_mul_div_cast_u64(u64::MAX, 2, 1, Rounding::Down),
        Err(CpAmmError::TypeCastFailed)
    );
}
