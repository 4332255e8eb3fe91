//! The trading fee: its rate at a point in time, the amount it takes from a
//! traded amount, and the split of that amount between the liquidity
//! providers, the protocol, the partner and the referrer.
//!
//! A fee rate is a numerator over `FEE_DENOMINATOR`.

use crate::errors::CpAmmError;
use crate::math::lemmas::{lemma_div_ceil_le, lemma_div_mod_nat};
use crate::math::wide::{div_ceil_spec, safe_mul_div_cast_u64, Rounding};
use crate::typedefs::{BaseFeeStruct, DynamicFeeStruct, FeeOnAmountResult, PoolFeesStruct};
use vstd::prelude::*;

verus! {

/// The denominator of every fee rate.
pub const FEE_DENOMINATOR: u64 = 1_000_000_000;

/// The largest fee rate that is ever charged: one half.
pub const MAX_FEE_NUMERATOR: u64 = 500_000_000;

/// The number of basis points in one.
pub const BASIS_POINT_MAX: u64 = 10_000;

/// The divisor that scales the variable fee down to a fee rate.
pub const VARIABLE_FEE_SCALE: u128 = 100_000_000_000;

/// The smaller of two numbers.
pub open spec fn min_nat(a: nat, b: nat) -> nat {
    if a <= b {
        a
    } else {
        b
    }
}

impl BaseFeeStruct {
    /// The number of fee periods that have passed at `current_point`. Before
    /// the activation point all of them count as passed.
    pub open spec fn passed_periods_spec(self, current_point: u64, activation_point: u64) -> nat
        recommends
            self.period_frequency > 0,
    {
        if current_point < activation_point {
            self.number_of_period as nat
        } else {
            min_nat(
                ((current_point - activation_point) / (self.period_frequency as int)) as nat,
                self.number_of_period as nat,
            )
        }
    }

    /// The base fee rate at `current_point`: the cliff rate less one
    /// reduction per passed period, and nothing where the reductions exceed
    /// the cliff rate.
    pub open spec fn current_base_fee_numerator_spec(
        self,
        current_point: u64,
        activation_point: u64,
    ) -> Option<u64> {
        if self.period_frequency == 0 {
            Some(self.cliff_fee_numerator)
        } else {
            let reduction = self.passed_periods_spec(current_point, activation_point)
                * self.reduction_factor;
            if reduction > self.cliff_fee_numerator {
                None
            } else {
                Some((self.cliff_fee_numerator - reduction) as u64)
            }
        }
    }

    /// The base fee rate at `current_point`.
    ///
    /// Fails with `MathOverflow` where the schedule reduces the rate below
    /// zero.
    pub fn get_current_base_fee_numerator(&self, current_point: u64, activation_point: u64) -> (r:
        Result<u64, CpAmmError>)
        ensures
            match self.current_base_fee_numerator_spec(current_point, activation_point) {
                Some(numerator) => r == Ok::<u64, CpAmmError>(numerator),
                None => r == Err::<u64, CpAmmError>(CpAmmError::MathOverflow),
            },
    {
        if self.period_frequency == 0 {
            return Ok(self.cliff_fee_numerator);
        }
        let period: u64 = if current_point < activation_point {
            self.number_of_period as u64
        } else {
            let elapsed: u64 = (current_point - activation_point) / self.period_frequency;
            if elapsed < self.number_of_period as u64 {
                elapsed
            } else {
                self.number_of_period as u64
            }
        };
        let reduction = match period.checked_mul(self.reduction_factor) {
            Some(x) => x,
            None => { return Err(CpAmmError::MathOverflow); },
        };
        match self.cliff_fee_numerator.checked_sub(reduction) {
            Some(numerator) => Ok(numerator),
            None => Err(CpAmmError::MathOverflow),
        }
    }
}

impl DynamicFeeStruct {
    /// Whether the pool has a dynamic fee.
    pub open spec fn is_enabled_spec(self) -> bool {
        self.initialized != 0
    }

    /// Whether the pool has a dynamic fee.
    pub fn is_dynamic_fee_enable(&self) -> (r: bool)
        ensures
            r == self.is_enabled_spec(),
    {
        self.initialized != 0
    }

    /// The square of accumulated volatility times bin step.
    pub open spec fn squared_volatility_spec(self) -> nat {
        (self.volatility_accumulator * self.bin_step) as nat * (self.volatility_accumulator
            * self.bin_step) as nat
    }

    /// The variable fee rate: the squared volatility times the fee control,
    /// scaled down and rounded up; zero without a dynamic fee, and nothing
    /// where an intermediate value does not fit in 128 bits.
    pub open spec fn variable_fee_spec(self) -> Option<u128> {
        if !self.is_enabled_spec() {
            Some(0u128)
        } else {
            let scaled = self.squared_volatility_spec() * self.variable_fee_control;
            if self.squared_volatility_spec() > u128::MAX || scaled + (VARIABLE_FEE_SCALE - 1)
                > u128::MAX {
                None
            } else {
                Some(((scaled + (VARIABLE_FEE_SCALE - 1)) / (VARIABLE_FEE_SCALE as int)) as u128)
            }
        }
    }

    /// The variable fee rate.
    ///
    /// Fails with `MathOverflow` where an intermediate value does not fit in
    /// 128 bits.
    pub fn get_variable_fee(&self) -> (r: Result<u128, CpAmmError>)
        ensures
            match self.variable_fee_spec() {
                Some(fee) => r == Ok::<u128, CpAmmError>(fee),
                None => r == Err::<u128, CpAmmError>(CpAmmError::MathOverflow),
            },
    {
        if !self.is_dynamic_fee_enable() {
            return Ok(0);
        }
        proof {
            let x = (self.volatility_accumulator * self.bin_step) as nat;
            assert(x <= x * x) by (nonlinear_arith);
        }
        let step: u128 = self.bin_step as u128;
        let volatility = match self.volatility_accumulator.checked_mul(step) {
            Some(x) => x,
            None => { return Err(CpAmmError::MathOverflow); },
        };
        let squared = match volatility.checked_mul(volatility) {
            Some(x) => x,
            None => { return Err(CpAmmError::MathOverflow); },
        };
        let control: u128 = self.variable_fee_control as u128;
        let scaled = match squared.checked_mul(control) {
            Some(x) => x,
            None => { return Err(CpAmmError::MathOverflow); },
        };
        match scaled.checked_add(VARIABLE_FEE_SCALE - 1) {
            Some(x) => Ok(x / VARIABLE_FEE_SCALE),
            None => Err(CpAmmError::MathOverflow),
        }
    }

    /// The state after the references have been brought up to
    /// `current_timestamp`.
    ///
    /// Within the filter period nothing changes. After it the price
    /// reference becomes `sqrt_price_current`, and the volatility reference
    /// becomes the accumulated volatility scaled by the reduction factor, or
    /// zero once the decay period is over. There is no such state where the
    /// timestamp lies before the last update, or the scaled volatility does
    /// not fit in 128 bits.
    pub open spec fn update_references_spec(self, sqrt_price_current: u128, current_timestamp: u64)
        -> Option<DynamicFeeStruct> {
        if current_timestamp < self.last_update_timestamp {
            None
        } else {
            let elapsed = current_timestamp - self.last_update_timestamp;
            if elapsed < self.filter_period {
                Some(self)
            } else if elapsed >= self.decay_period {
                Some(
                    DynamicFeeStruct {
                        sqrt_price_reference: sqrt_price_current,
                        volatility_reference: 0,
                        ..self
                    },
                )
            } else if self.volatility_accumulator * self.reduction_factor > u128::MAX {
                None
            } else {
                Some(
                    DynamicFeeStruct {
                        sqrt_price_reference: sqrt_price_current,
                        volatility_reference: ((self.volatility_accumulator * self.reduction_factor)
                            / (BASIS_POINT_MAX as int)) as u128,
                        ..self
                    },
                )
            }
        }
    }

    /// Brings the references up to `current_timestamp`.
    ///
    /// Fails with `MathOverflow`, and changes nothing, where
    /// `update_references_spec` gives no state.
    pub fn update_references(&mut self, sqrt_price_current: u128, current_timestamp: u64) -> (r:
        Result<(), CpAmmError>)
        ensures
            match old(self).update_references_spec(sqrt_price_current, current_timestamp) {
                Some(next) => r == Ok::<(), CpAmmError>(()) && *final(self) == next,
                None => r == Err::<(), CpAmmError>(CpAmmError::MathOverflow) && *final(self)
                    == *old(self),
            },
    {
        let elapsed = match current_timestamp.checked_sub(self.last_update_timestamp) {
            Some(x) => x,
            None => { return Err(CpAmmError::MathOverflow); },
        };
        if elapsed >= self.filter_period as u64 {
            if elapsed < self.decay_period as u64 {
                let factor: u128 = self.reduction_factor as u128;
                let scaled = match self.volatility_accumulator.checked_mul(factor) {
                    Some(x) => x,
                    None => { return Err(CpAmmError::MathOverflow); },
                };
                self.sqrt_price_reference = sqrt_price_current;
                self.volatility_reference = scaled / (BASIS_POINT_MAX as u128);
            } else {
                self.sqrt_price_reference = sqrt_price_current;
                self.volatility_reference = 0;
            }
        }
        Ok(())
    }
}

/// The fee on `amount` at the rate `numerator`, split by the three shares.
///
/// The fee is `amount * numerator / FEE_DENOMINATOR` rounded up. The
/// protocol takes its percentage of the fee, rounded down; what is left goes
/// to the liquidity providers. Out of the protocol's part the referrer, if
/// there is one, takes a percentage, and the partner takes a percentage of
/// what the referrer left. There is no split where a part exceeds what it is
/// taken from.
pub open spec fn split_fee_spec(
    amount: u64,
    numerator: u64,
    protocol_fee_percent: u8,
    partner_fee_percent: u8,
    referral_fee_percent: u8,
    is_referral: bool,
) -> Option<FeeOnAmountResult> {
    let fee = div_ceil_spec((amount * numerator) as nat, FEE_DENOMINATOR as nat);
    let protocol_part = (fee * protocol_fee_percent) / 100;
    let referral = if is_referral {
        (protocol_part * referral_fee_percent) / 100
    } else {
        0
    };
    let partner = ((protocol_part - referral) * partner_fee_percent) / 100;
    if fee > amount || protocol_part > fee || referral > protocol_part || partner > protocol_part
        - referral {
        None
    } else {
        Some(
            FeeOnAmountResult {
                amount: (amount - fee) as u64,
                lp_fee: (fee - protocol_part) as u64,
                protocol_fee: (protocol_part - referral - partner) as u64,
                partner_fee: partner as u64,
                referral_fee: referral as u64,
            },
        )
    }
}

/// A split hands out exactly the amount that it was given.
pub proof fn lemma_split_fee_conserves(
    amount: u64,
    numerator: u64,
    protocol_fee_percent: u8,
    partner_fee_percent: u8,
    referral_fee_percent: u8,
    is_referral: bool,
)
    ensures
        match split_fee_spec(
            amount,
            numerator,
            protocol_fee_percent,
            partner_fee_percent,
            referral_fee_percent,
            is_referral,
        ) {
            Some(split) => split.amount + split.total_fee() == amount,
            None => true,
        },
{
}

/// With a rate of at most `FEE_DENOMINATOR` and shares of at most a hundred
/// percent there is a split.
pub proof fn lemma_split_fee_exists(
    amount: u64,
    numerator: u64,
    protocol_fee_percent: u8,
    partner_fee_percent: u8,
    referral_fee_percent: u8,
    is_referral: bool,
)
    requires
        numerator <= FEE_DENOMINATOR,
        protocol_fee_percent <= 100,
        partner_fee_percent <= 100,
        referral_fee_percent <= 100,
    ensures
        split_fee_spec(
            amount,
            numerator,
            protocol_fee_percent,
            partner_fee_percent,
            referral_fee_percent,
            is_referral,
        ).is_some(),
{
    let fee = div_ceil_spec((amount * numerator) as nat, FEE_DENOMINATOR as nat);
    assert(amount * numerator <= FEE_DENOMINATOR * amount) by (nonlinear_arith)
        requires
            numerator <= FEE_DENOMINATOR,
    ;
    lemma_div_ceil_le((amount * numerator) as nat, FEE_DENOMINATOR as nat, amount as nat);
    lemma_share_le(fee, protocol_fee_percent as nat);
    let protocol_part = ((fee * protocol_fee_percent) / 100) as nat;
    lemma_share_le(protocol_part, referral_fee_percent as nat);
    let referral = if is_referral {
        ((protocol_part * referral_fee_percent) / 100) as nat
    } else {
        0nat
    };
    lemma_share_le((protocol_part - referral) as nat, partner_fee_percent as nat);
}

/// A share of at most a hundred percent is at most the whole.
pub proof fn lemma_share_le(whole: nat, percent: nat)
    requires
        percent <= 100,
    ensures
        (whole * percent) / 100 <= whole,
{
    assert(whole * percent <= whole * 100) by (nonlinear_arith)
        requires
            percent <= 100,
    ;
    lemma_div_mod_nat(whole * percent, 100);
}

impl PoolFeesStruct {
    /// The fee rate at `current_point` before it is capped: the base rate
    /// plus the variable rate, and nothing where either is missing or the
    /// sum does not fit in 128 bits.
    pub open spec fn total_trading_fee_spec(self, current_point: u64, activation_point: u64)
        -> Option<u128> {
        match (
            self.base_fee.current_base_fee_numerator_spec(current_point, activation_point),
            self.dynamic_fee.variable_fee_spec(),
        ) {
            (Some(base), Some(variable)) => if base + variable > u128::MAX {
                None
            } else {
                Some((base + variable) as u128)
            },
            _ => None,
        }
    }

    /// The fee rate that is charged at `current_point`: the total rate,
    /// capped at `MAX_FEE_NUMERATOR`.
    pub open spec fn trade_fee_numerator_spec(self, current_point: u64, activation_point: u64)
        -> Option<u64> {
        match self.total_trading_fee_spec(current_point, activation_point) {
            Some(total) => if total > MAX_FEE_NUMERATOR {
                Some(MAX_FEE_NUMERATOR)
            } else {
                Some(total as u64)
            },
            None => None,
        }
    }

    /// The fee on `amount` and its split, at `current_point`.
    pub open spec fn fee_on_amount_spec(
        self,
        amount: u64,
        is_referral: bool,
        current_point: u64,
        activation_point: u64,
    ) -> Option<FeeOnAmountResult> {
        match self.trade_fee_numerator_spec(current_point, activation_point) {
            Some(numerator) => split_fee_spec(
                amount,
                numerator,
                self.protocol_fee_percent,
                self.partner_fee_percent,
                self.referral_fee_percent,
                is_referral,
            ),
            None => None,
        }
    }

    /// Whether each of the three shares is at most a hundred percent.
    pub open spec fn shares_are_percentages(self) -> bool {
        self.protocol_fee_percent <= 100 && self.partner_fee_percent <= 100
            && self.referral_fee_percent <= 100
    }

    /// The fee rate at `current_point` before it is capped.
    ///
    /// Fails with `MathOverflow` where `total_trading_fee_spec` gives no
    /// rate.
    pub fn get_total_trading_fee(&self, current_point: u64, activation_point: u64) -> (r: Result<
        u128,
        CpAmmError,
    >)
        ensures
            match self.total_trading_fee_spec(current_point, activation_point) {
                Some(total) => r == Ok::<u128, CpAmmError>(total),
                None => r == Err::<u128, CpAmmError>(CpAmmError::MathOverflow),
            },
    {
        let base = self.base_fee.get_current_base_fee_numerator(current_point, activation_point)?;
        let variable = self.dynamic_fee.get_variable_fee()?;
        match variable.checked_add(base as u128) {
            Some(total) => Ok(total),
            None => Err(CpAmmError::MathOverflow),
        }
    }

    /// Takes the fee at `current_point` from `amount` and splits it.
    ///
    /// The result hands out exactly `amount`. With shares of at most a
    /// hundred percent the call succeeds wherever the fee rate exists. Every
    /// failure is a `FeeCalculationFailure`.
    pub fn get_fee_on_amount(
        &self,
        amount: u64,
        is_referral: bool,
        current_point: u64,
        activation_point: u64,
    ) -> (r: Result<FeeOnAmountResult, CpAmmError>)
        ensures
            match self.fee_on_amount_spec(amount, is_referral, current_point, activation_point) {
                Some(split) => r == Ok::<FeeOnAmountResult, CpAmmError>(split),
                None => r == Err::<FeeOnAmountResult, CpAmmError>(
                    CpAmmError::FeeCalculationFailure,
                ),
            },
            r.is_ok() ==> r.unwrap().amount + r.unwrap().total_fee() == amount,
            self.shares_are_percentages() && self.total_trading_fee_spec(
                current_point,
                activation_point,
            ).is_some() ==> r.is_ok(),
    {
        let total = match self.get_total_trading_fee(current_point, activation_point) {
            Ok(x) => x,
            Err(_) => { return Err(CpAmmError::FeeCalculationFailure); },
        };
        let numerator: u64 = if total > MAX_FEE_NUMERATOR as u128 {
            MAX_FEE_NUMERATOR
        } else {
            total as u64
        };
        proof {
            lemma_split_fee_conserves(
                amount,
                numerator,
                self.protocol_fee_percent,
                self.partner_fee_percent,
                self.referral_fee_percent,
                is_referral,
            );
            if self.shares_are_percentages() {
                lemma_split_fee_exists(
                    amount,
                    numerator,
                    self.protocol_fee_percent,
                    self.partner_fee_percent,
                    self.referral_fee_percent,
                    is_referral,
                );
            }
            assert(amount * numerator <= FEE_DENOMINATOR * amount) by (nonlinear_arith)
                requires
                    numerator <= FEE_DENOMINATOR,
            ;
            lemma_div_ceil_le((amount * numerator) as nat, FEE_DENOMINATOR as nat, amount as nat);
        }
        let fee = match safe_mul_div_cast_u64(amount, numerator, FEE_DENOMINATOR, Rounding::Up) {
            Ok(x) => x,
            Err(_) => { return Err(CpAmmError::FeeCalculationFailure); },
        };
        let amount_left = match amount.checked_sub(fee) {
            Some(x) => x,
            None => { return Err(CpAmmError::FeeCalculationFailure); },
        };
        let protocol_part = match safe_mul_div_cast_u64(
            fee,
            self.protocol_fee_percent as u64,
            100,
            Rounding::Down,
        ) {
            Ok(x) => x,
            Err(_) => { return Err(CpAmmError::FeeCalculationFailure); },
        };
        let lp_fee = match fee.checked_sub(protocol_part) {
            Some(x) => x,
            None => { return Err(CpAmmError::FeeCalculationFailure); },
        };
        let referral_fee = if is_referral {
            match safe_mul_div_cast_u64(
                protocol_part,
                self.referral_fee_percent as u64,
                100,
                Rounding::Down,
            ) {
                Ok(x) => x,
                Err(_) => { return Err(CpAmmError::FeeCalculationFailure); },
            }
        } else {
            0
        };
        let protocol_left = match protocol_part.checked_sub(referral_fee) {
            Some(x) => x,
            None => { return Err(CpAmmError::FeeCalculationFailure); },
        };
        let partner_fee = match safe_mul_div_cast_u64(
            protocol_left,
            self.partner_fee_percent as u64,
            100,
            Rounding::Down,
        ) {
            Ok(x) => x,
            Err(_) => { return Err(CpAmmError::FeeCalculationFailure); },
        };
        let protocol_fee = match protocol_left.checked_sub(partner_fee) {
            Some(x) => x,
            None => { return Err(CpAmmError::FeeCalculationFailure); },
        };
        Ok(FeeOnAmountResult { amount: amount_left, lp_fee, protocol_fee, partner_fee, referral_fee })
    }
}

} // verus!
