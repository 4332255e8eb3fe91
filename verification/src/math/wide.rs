//! Unsigned integers of 256 and 512 bits.
//!
//! A value is kept as its little-endian 64-bit limbs. Multiplication,
//! division, addition and shifts are done by `ruint`; what each of them
//! returns is stated over the mathematical value of the limbs.

use crate::errors::CpAmmError;
use crate::math::lemmas::lemma_div_le_dividend;
use vstd::arithmetic::power2::pow2;
use vstd::prelude::*;

verus! {

/// Two to the power 64.
pub open spec fn pow2_64() -> nat {
    0x1_0000_0000_0000_0000nat
}

/// Two to the power 128.
pub open spec fn pow2_128() -> nat {
    0x1_0000_0000_0000_0000_0000_0000_0000_0000nat
}

/// Two to the power 192.
pub open spec fn pow2_192() -> nat {
    0x1_0000_0000_0000_0000_0000_0000_0000_0000_0000_0000_0000_0000nat
}

/// Two to the power 256.
pub open spec fn pow2_256() -> nat {
    0x1_0000_0000_0000_0000_0000_0000_0000_0000_0000_0000_0000_0000_0000_0000_0000_0000nat
}

/// Two to the power 512.
pub open spec fn pow2_512() -> nat {
    pow2_256() * pow2_256()
}

/// The direction in which an inexact quotient is rounded.
#[derive(Clone, Copy, Debug, PartialEq, Eq, Structural)]
pub enum Rounding {
    Up,
    Down,
}

/// The quotient `n / d` rounded up to the next integer.
pub open spec fn div_ceil_spec(n: nat, d: nat) -> nat
    recommends
        d > 0,
{
    if n % d == 0 {
        n / d
    } else {
        n / d + 1
    }
}

/// The quotient `a * b / d`, rounded as `rounding` says.
pub open spec fn mul_div_spec(a: nat, b: nat, d: nat, rounding: Rounding) -> nat
    recommends
        d > 0,
{
    match rounding {
        Rounding::Up => div_ceil_spec(a * b, d),
        Rounding::Down => (a * b) / d,
    }
}

/// An unsigned integer of 256 bits, least significant limb first.
#[derive(Clone, Copy, Debug, PartialEq, Eq)]
pub struct U256 {
    pub limbs: [u64; 4],
}

/// An unsigned integer of 512 bits, least significant limb first.
#[derive(Clone, Copy, Debug, PartialEq, Eq)]
pub struct U512 {
    pub limbs: [u64; 8],
}

impl U256 {
    /// The number that the limbs stand for.
    pub open spec fn value(self) -> nat {
        (self.limbs[0] as nat) + (self.limbs[1] as nat) * pow2_64() + (self.limbs[2] as nat)
            * pow2_128() + (self.limbs[3] as nat) * pow2_192()
    }

    /// Every value is below two to the power 256.
    pub proof fn lemma_value_bound(self)
        ensures
            self.value() < pow2_256(),
    {
    }

    /// Widens a 128-bit integer.
    pub fn from_u128(x: u128) -> (r: U256)
        ensures
            r.value() == x,
    {
        let lo: u64 = (x % 0x1_0000_0000_0000_0000u128) as u64;
        let hi: u64 = (x / 0x1_0000_0000_0000_0000u128) as u64;
        U256 { limbs: [lo, hi, 0, 0] }
    }

    /// Widens a 64-bit integer.
    pub fn from_u64(x: u64) -> (r: U256)
        ensures
            r.value() == x,
    {
        U256 { limbs: [x, 0, 0, 0] }
    }

    /// Whether the value is zero.
    pub fn is_zero(&self) -> (r: bool)
        ensures
            r == (self.value() == 0),
    {
        self.limbs[0] == 0 && self.limbs[1] == 0 && self.limbs[2] == 0 && self.limbs[3] == 0
    }

    /// Whether this value is at most `other`.
    pub fn le(&self, other: &U256) -> (r: bool)
        ensures
            r == (self.value() <= other.value()),
    {
        if self.limbs[3] != other.limbs[3] {
            self.limbs[3] < other.limbs[3]
        } else if self.limbs[2] != other.limbs[2] {
            self.limbs[2] < other.limbs[2]
        } else if self.limbs[1] != other.limbs[1] {
            self.limbs[1] < other.limbs[1]
        } else {
            self.limbs[0] <= other.limbs[0]
        }
    }

    /// Narrows to 64 bits; `None` where the value does not fit.
    pub fn to_u64(&self) -> (r: Option<u64>)
        ensures
            self.value() <= u64::MAX ==> r == Some(self.value() as u64),
            self.value() > u64::MAX ==> r.is_none(),
    {
        if self.limbs[1] == 0 && self.limbs[2] == 0 && self.limbs[3] == 0 {
            Some(self.limbs[0])
        } else {
            None
        }
    }

    /// Narrows to 128 bits; `None` where the value does not fit.
    pub fn to_u128(&self) -> (r: Option<u128>)
        ensures
            self.value() <= u128::MAX ==> r == Some(self.value() as u128),
            self.value() > u128::MAX ==> r.is_none(),
    {
        if self.limbs[2] == 0 && self.limbs[3] == 0 {
            let lo: u128 = self.limbs[0] as u128;
            let hi: u128 = self.limbs[1] as u128;
            Some(hi * 0x1_0000_0000_0000_0000u128 + lo)
        } else {
            None
        }
    }
}

impl U512 {
    /// The number that the limbs stand for.
    pub open spec fn value(self) -> nat {
        (self.limbs[0] as nat) + (self.limbs[1] as nat) * pow2_64() + (self.limbs[2] as nat)
            * pow2_128() + (self.limbs[3] as nat) * pow2_192() + ((self.limbs[4] as nat) + (
        self.limbs[5] as nat) * pow2_64() + (self.limbs[6] as nat) * pow2_128() + (
        self.limbs[7] as nat) * pow2_192()) * pow2_256()
    }

    /// Widens a 256-bit integer.
    pub fn from_u256(x: U256) -> (r: U512)
        ensures
            r.value() == x.value(),
    {
        U512 { limbs: [x.limbs[0], x.limbs[1], x.limbs[2], x.limbs[3], 0, 0, 0, 0] }
    }

    /// Narrows to 256 bits; `None` where the value does not fit.
    pub fn to_u256(&self) -> (r: Option<U256>)
        ensures
            match r {
                Some(x) => x.value() == self.value(),
                None => self.value() >= pow2_256(),
            },
    {
        if self.limbs[4] == 0 && self.limbs[5] == 0 && self.limbs[6] == 0 && self.limbs[7] == 0 {
            Some(U256 { limbs: [self.limbs[0], self.limbs[1], self.limbs[2], self.limbs[3]] })
        } else {
            None
        }
    }
}

/// `ruint::Uint::checked_mul` at 256 bits: the product of the two values
/// where it is below two to the power 256, and nothing where it is not.
#[verifier::external_body]
pub(crate) fn u256_checked_mul(a: U256, b: U256) -> (r: Option<U256>)
    ensures
        match r {
            Some(p) => p.value() == a.value() * b.value(),
            None => a.value() * b.value() >= pow2_256(),
        },
{
    let x = ruint::aliases::U256::from_limbs(a.limbs);
    let y = ruint::aliases::U256::from_limbs(b.limbs);
    x.checked_mul(y).map(|p| U256 { limbs: p.into_limbs() })
}

/// `ruint::Uint::checked_add` at 256 bits: the sum of the two values where
/// it is below two to the power 256, and nothing where it is not.
#[verifier::external_body]
pub(crate) fn u256_checked_add(a: U256, b: U256) -> (r: Option<U256>)
    ensures
        match r {
            Some(s) => s.value() == a.value() + b.value(),
            None => a.value() + b.value() >= pow2_256(),
        },
{
    let x = ruint::aliases::U256::from_limbs(a.limbs);
    let y = ruint::aliases::U256::from_limbs(b.limbs);
    x.checked_add(y).map(|s| U256 { limbs: s.into_limbs() })
}

/// `ruint::Uint::checked_div` at 256 bits: the quotient rounded down, and
/// nothing where the divisor is zero.
#[verifier::external_body]
pub(crate) fn u256_checked_div(a: U256, b: U256) -> (r: Option<U256>)
    ensures
        match r {
            Some(q) => b.value() > 0 && q.value() == a.value() / b.value(),
            None => b.value() == 0,
        },
{
    let x = ruint::aliases::U256::from_limbs(a.limbs);
    let y = ruint::aliases::U256::from_limbs(b.limbs);
    x.checked_div(y).map(|q| U256 { limbs: q.into_limbs() })
}

/// `ruint::Uint::div_ceil` at 256 bits: the quotient rounded up. The outside
/// function panics on a zero divisor, which is left out here.
#[verifier::external_body]
pub(crate) fn u256_div_ceil(a: U256, b: U256) -> (r: U256)
    requires
        b.value() > 0,
    ensures
        r.value() == div_ceil_spec(a.value(), b.value()),
{
    let x = ruint::aliases::U256::from_limbs(a.limbs);
    let y = ruint::aliases::U256::from_limbs(b.limbs);
    U256 { limbs: x.div_ceil(y).into_limbs() }
}

/// `ruint::Uint::checked_shl` at 256 bits: the value times two to the power
/// `bits` where that is below two to the power 256, and nothing where a set
/// bit would be shifted out.
#[verifier::external_body]
pub(crate) fn u256_checked_shl(a: U256, bits: usize) -> (r: Option<U256>)
    ensures
        match r {
            Some(p) => p.value() == a.value() * pow2(bits as nat),
            None => a.value() * pow2(bits as nat) >= pow2_256(),
        },
{
    let x = ruint::aliases::U256::from_limbs(a.limbs);
    x.checked_shl(bits).map(|p| U256 { limbs: p.into_limbs() })
}

/// `ruint::Uint::overflowing_shr` at 256 bits: the value divided by two to
/// the power `bits`, rounded down, and whether a set bit was shifted out.
#[verifier::external_body]
pub(crate) fn u256_overflowing_shr(a: U256, bits: usize) -> (r: (U256, bool))
    ensures
        r.0.value() == a.value() / pow2(bits as nat),
        r.1 == (a.value() % pow2(bits as nat) != 0),
{
    let x = ruint::aliases::U256::from_limbs(a.limbs);
    let (q, lost) = x.overflowing_shr(bits);
    (U256 { limbs: q.into_limbs() }, lost)
}

/// `ruint::Uint::checked_mul` at 512 bits: the product of the two values
/// where it is below two to the power 512, and nothing where it is not.
#[verifier::external_body]
pub(crate) fn u512_checked_mul(a: U512, b: U512) -> (r: Option<U512>)
    ensures
        match r {
            Some(p) => p.value() == a.value() * b.value(),
            None => a.value() * b.value() >= pow2_512(),
        },
{
    let x = ruint::aliases::U512::from_limbs(a.limbs);
    let y = ruint::aliases::U512::from_limbs(b.limbs);
    x.checked_mul(y).map(|p| U512 { limbs: p.into_limbs() })
}

/// `ruint::Uint::div_ceil` at 512 bits: the quotient rounded up. The outside
/// function panics on a zero divisor, which is left out here.
#[verifier::external_body]
pub(crate) fn u512_div_ceil(a: U512, b: U512) -> (r: U512)
    requires
        b.value() > 0,
    ensures
        r.value() == div_ceil_spec(a.value(), b.value()),
{
    let x = ruint::aliases::U512::from_limbs(a.limbs);
    let y = ruint::aliases::U512::from_limbs(b.limbs);
    U512 { limbs: x.div_ceil(y).into_limbs() }
}

/// `ruint::Uint::div_rem` at 512 bits: the quotient rounded down and the
/// remainder. The outside function panics on a zero divisor, which is left
/// out here.
#[verifier::external_body]
pub(crate) fn u512_div_rem(a: U512, b: U512) -> (r: (U512, U512))
    requires
        b.value() > 0,
    ensures
        r.0.value() == a.value() / b.value(),
        r.1.value() == a.value() % b.value(),
{
    let x = ruint::aliases::U512::from_limbs(a.limbs);
    let y = ruint::aliases::U512::from_limbs(b.limbs);
    let (q, m) = x.div_rem(y);
    (U512 { limbs: q.into_limbs() }, U512 { limbs: m.into_limbs() })
}

/// What `mul_div_u256` returns: the rounded quotient where the divisor is
/// positive and the quotient is below two to the power 256.
pub open spec fn mul_div_u256_spec(x: nat, y: nat, denominator: nat, rounding: Rounding) -> Option<
    nat,
> {
    if denominator == 0 || mul_div_spec(x, y, denominator, rounding) >= pow2_256() {
        None
    } else {
        Some(mul_div_spec(x, y, denominator, rounding))
    }
}

/// Computes `x * y / denominator` without losing the upper half of the
/// product, rounded as `rounding` says.
///
/// Fails with `MathOverflow` where the divisor is zero or the quotient does
/// not fit in 256 bits.
pub fn mul_div_u256(x: U256, y: U256, denominator: U256, rounding: Rounding) -> (r: Result<
    U256,
    CpAmmError,
>)
    ensures
        match mul_div_u256_spec(x.value(), y.value(), denominator.value(), rounding) {
            Some(q) => r.is_ok() && r.unwrap().value() == q,
            None => r == Err::<U256, CpAmmError>(CpAmmError::MathOverflow),
        },
{
    if denominator.is_zero() {
        return Err(CpAmmError::MathOverflow);
    }
    proof {
        x.lemma_value_bound();
        y.lemma_value_bound();
        let (a, b, bound) = (x.value(), y.value(), pow2_256());
        assert(a * b < bound * bound) by (nonlinear_arith)
            requires
                a < bound,
                b < bound,
        ;
    }
    let wide_x = U512::from_u256(x);
    let wide_y = U512::from_u256(y);
    let wide_denominator = U512::from_u256(denominator);
    let product = match u512_checked_mul(wide_x, wide_y) {
        Some(p) => p,
        None => { return Err(CpAmmError::MathOverflow); },
    };
    let quotient = match rounding {
        Rounding::Up => u512_div_ceil(product, wide_denominator),
        Rounding::Down => u512_div_rem(product, wide_denominator).0,
    };
    match quotient.to_u256() {
        Some(q) => Ok(q),
        None => Err(CpAmmError::MathOverflow),
    }
}

/// What `safe_mul_div_cast_u64` returns: the rounded quotient where the
/// divisor is positive and the quotient fits in 64 bits.
pub open spec fn mul_div_u64_spec(x: u64, y: u64, denominator: u64, rounding: Rounding) -> Result<
    u64,
    CpAmmError,
> {
    if denominator == 0 {
        Err(CpAmmError::MathOverflow)
    } else if mul_div_spec(x as nat, y as nat, denominator as nat, rounding) > u64::MAX {
        Err(CpAmmError::TypeCastFailed)
    } else {
        Ok(mul_div_spec(x as nat, y as nat, denominator as nat, rounding) as u64)
    }
}

/// Computes `x * y / denominator` on 64-bit integers through a wide
/// product, rounded as `rounding` says.
///
/// Fails with `MathOverflow` where the divisor is zero, and with
/// `TypeCastFailed` where the quotient does not fit in 64 bits.
pub fn safe_mul_div_cast_u64(x: u64, y: u64, denominator: u64, rounding: Rounding) -> (r: Result<
    u64,
    CpAmmError,
>)
    ensures
        r == mul_div_u64_spec(x, y, denominator, rounding),
{
    proof {
        if denominator > 0 {
            let (a, b) = (x as nat, y as nat);
            assert(a * b < pow2_64() * pow2_64()) by (nonlinear_arith)
                requires
                    a < pow2_64(),
                    b < pow2_64(),
            ;
            lemma_div_le_dividend(a * b, denominator as nat);
        }
    }
    let wide = mul_div_u256(
        U256::from_u64(x),
        U256::from_u64(y),
        U256::from_u64(denominator),
        rounding,
    )?;
    match wide.to_u64() {
        Some(q) => Ok(q),
        None => Err(CpAmmError::TypeCastFailed),
    }
}

} // verus!
