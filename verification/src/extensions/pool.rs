//! Swaps on a pool snapshot.
//!
//! A swap moves the square-root price along the curve, reads the output
//! amount off the curve, and takes the fee. Where the fee is taken depends
//! on the direction of the trade and on the fee mode of the pool:
//!
//! | direction | fee mode  | the fee is taken from        |
//! |-----------|-----------|------------------------------|
//! | A to B    | BothToken | the output, in token B       |
//! | B to A    | BothToken | the output, in token A       |
//! | A to B    | OnlyB     | the output, in token B       |
//! | B to A    | OnlyB     | the input, before the curve  |

use crate::conversions::activation_type::{activation_type_of_byte, ActivationTypeWrapper};
use crate::conversions::collect_fee_mode::{collect_fee_mode_of_byte, CollectFeeModeWrapper};
use crate::errors::CpAmmError;
use crate::math::curve::{
    delta_amount_a_spec,
    delta_amount_b_spec,
    get_delta_amount_a_unsigned,
    get_delta_amount_b_unsigned,
    get_next_sqrt_price_from_input,
    lemma_next_sqrt_price_from_amount_a_is_positive,
    next_sqrt_price_from_amount_a_spec,
    next_sqrt_price_from_amount_b_spec,
    next_sqrt_price_from_input_spec,
};
use crate::math::fee::lemma_split_fee_conserves;
use crate::math::wide::Rounding;
use crate::typedefs::{
    ActivationType,
    CollectFeeMode,
    FeeOnAmountResult,
    Pool,
    PoolFeesStruct,
    SwapResult,
    TradeDirection,
};
use vstd::prelude::*;

verus! {

/// A swap result made of a price, an output amount and the shares of a fee.
pub open spec fn swap_result_of(
    output_amount: u64,
    next_sqrt_price: u128,
    fee: FeeOnAmountResult,
) -> SwapResult {
    SwapResult {
        output_amount,
        next_sqrt_price,
        lp_fee: fee.lp_fee,
        protocol_fee: fee.protocol_fee,
        partner_fee: fee.partner_fee,
        referral_fee: fee.referral_fee,
    }
}

/// The swaps and the state changes of a pool snapshot.
pub trait PoolExtension: Sized {
    /// Whether price and liquidity are positive, as every swap needs.
    spec fn is_tradable(&self) -> bool;

    /// The snapshot after the fee state has been brought up to
    /// `current_timestamp`, or the error that prevents it.
    spec fn pre_swap_spec(&self, current_timestamp: u64) -> Result<Self, CpAmmError>;

    /// The result of a swap of token A for token B.
    spec fn swap_result_from_a_to_b_spec(
        &self,
        amount_in: u64,
        is_referral: bool,
        current_point: u64,
    ) -> Result<SwapResult, CpAmmError>;

    /// The result of a swap of token B for token A.
    spec fn swap_result_from_b_to_a_spec(
        &self,
        amount_in: u64,
        is_referral: bool,
        is_skip_fee: bool,
        current_point: u64,
    ) -> Result<SwapResult, CpAmmError>;

    /// The result of a swap in the given direction under the fee mode of
    /// the pool.
    spec fn swap_result_spec(
        &self,
        amount_in: u64,
        is_referral: bool,
        trade_direction: TradeDirection,
        current_point: u64,
    ) -> Result<SwapResult, CpAmmError>;

    /// The fee mode of the pool, if its byte stands for one.
    spec fn collect_fee_mode_spec(&self) -> Option<CollectFeeMode>;

    /// The time axis of the pool, if its byte stands for one.
    spec fn activation_type_spec(&self) -> Option<ActivationType>;

    /// Brings the fee state up to `current_timestamp`. On failure the
    /// snapshot is unchanged.
    fn update_pre_swap(&mut self, current_timestamp: u64) -> (r: Result<(), CpAmmError>)
        ensures
            match old(self).pre_swap_spec(current_timestamp) {
                Ok(next) => r == Ok::<(), CpAmmError>(()) && *final(self) == next,
                Err(e) => r == Err::<(), CpAmmError>(e) && *final(self) == *old(self),
            },
    ;

    /// Swaps `amount_in` in the given direction under the fee mode of the
    /// pool.
    ///
    /// Fails with `InvalidCollectFeeMode` where the pool has no fee mode,
    /// and otherwise as the swap in that direction does. The snapshot is not
    /// changed.
    fn get_swap_result(
        &self,
        amount_in: u64,
        is_referral: bool,
        trade_direction: TradeDirection,
        current_point: u64,
    ) -> (r: Result<SwapResult, CpAmmError>)
        requires
            self.is_tradable(),
        ensures
            r == self.swap_result_spec(amount_in, is_referral, trade_direction, current_point),
    ;

    /// Swaps `amount_in` of token A for token B; the fee is taken from the
    /// output.
    ///
    /// Fails with `PriceRangeViolation` where the price would fall below the
    /// lower bound, with `MathOverflow` where the output does not fit in 64
    /// bits, and with `FeeCalculationFailure` where the fee cannot be
    /// computed.
    fn get_swap_result_from_a_to_b(&self, amount_in: u64, is_referral: bool, current_point: u64)
        -> (r: Result<SwapResult, CpAmmError>)
        requires
            self.is_tradable(),
        ensures
            r == self.swap_result_from_a_to_b_spec(amount_in, is_referral, current_point),
    ;

    /// Swaps `amount_in` of token B for token A; the fee is taken from the
    /// output unless `is_skip_fee` says that it was taken before.
    ///
    /// Fails with `PriceRangeViolation` where the price would rise above the
    /// upper bound (a price that does not fit in 128 bits lies above every
    /// bound), with `MathOverflow` where the output does not fit in 64 bits,
    /// and with `FeeCalculationFailure` where the fee cannot be computed.
    fn get_swap_result_from_b_to_a(
        &self,
        amount_in: u64,
        is_referral: bool,
        is_skip_fee: bool,
        current_point: u64,
    ) -> (r: Result<SwapResult, CpAmmError>)
        requires
            self.is_tradable(),
        ensures
            r == self.swap_result_from_b_to_a_spec(
                amount_in,
                is_referral,
                is_skip_fee,
                current_point,
            ),
    ;

    /// The fee mode of the pool. Fails with `InvalidCollectFeeMode` where
    /// the byte stands for none.
    fn collect_fee_mode(&self) -> (r: Result<CollectFeeModeWrapper, CpAmmError>)
        ensures
            match (self.collect_fee_mode_spec(), r) {
                (Some(mode), Ok(wrapper)) => wrapper@ == mode,
                (None, Err(e)) => e == CpAmmError::InvalidCollectFeeMode,
                _ => false,
            },
    ;

    /// The time axis of the pool. Fails with `InvalidActivationType` where
    /// the byte stands for none.
    fn activation_type(&self) -> (r: Result<ActivationTypeWrapper, CpAmmError>)
        ensures
            match (self.activation_type_spec(), r) {
                (Some(kind), Ok(wrapper)) => wrapper@ == kind,
                (None, Err(e)) => e == CpAmmError::InvalidActivationType,
                _ => false,
            },
    ;
}

impl PoolExtension for Pool {
    open spec fn is_tradable(&self) -> bool {
        self.sqrt_price > 0 && self.liquidity > 0
    }

    open spec fn pre_swap_spec(&self, current_timestamp: u64) -> Result<Pool, CpAmmError> {
        if self.pool_fees.dynamic_fee.initialized == 0 {
            Ok(*self)
        } else {
            match self.pool_fees.dynamic_fee.update_references_spec(
                self.sqrt_price,
                current_timestamp,
            ) {
                Some(dynamic_fee) => Ok(
                    Pool {
                        pool_fees: PoolFeesStruct {
                            dynamic_fee,
                            ..self.pool_fees
                        },
                        ..*self
                    },
                ),
                None => Err(CpAmmError::MathOverflow),
            }
        }
    }

    open spec fn swap_result_from_a_to_b_spec(
        &self,
        amount_in: u64,
        is_referral: bool,
        current_point: u64,
    ) -> Result<SwapResult, CpAmmError> {
        let next = next_sqrt_price_from_amount_a_spec(
            self.sqrt_price as nat,
            self.liquidity as nat,
            amount_in as nat,
        );
        let gross = delta_amount_b_spec(
            next,
            self.sqrt_price as nat,
            self.liquidity as nat,
            Rounding::Down,
        );
        if next < self.sqrt_min_price {
            Err(CpAmmError::PriceRangeViolation)
        } else if gross > u64::MAX {
            Err(CpAmmError::MathOverflow)
        } else {
            match self.pool_fees.fee_on_amount_spec(
                gross as u64,
                is_referral,
                current_point,
                self.activation_point,
            ) {
                Some(fee) => Ok(swap_result_of(fee.amount, next as u128, fee)),
                None => Err(CpAmmError::FeeCalculationFailure),
            }
        }
    }

    open spec fn swap_result_from_b_to_a_spec(
        &self,
        amount_in: u64,
        is_referral: bool,
        is_skip_fee: bool,
        current_point: u64,
    ) -> Result<SwapResult, CpAmmError> {
        let next = next_sqrt_price_from_amount_b_spec(
            self.sqrt_price as nat,
            self.liquidity as nat,
            amount_in as nat,
        );
        let gross = delta_amount_a_spec(
            self.sqrt_price as nat,
            next,
            self.liquidity as nat,
            Rounding::Down,
        );
        if next > self.sqrt_max_price {
            Err(CpAmmError::PriceRangeViolation)
        } else if gross > u64::MAX {
            Err(CpAmmError::MathOverflow)
        } else if is_skip_fee {
            Ok(
                SwapResult {
                    output_amount: gross as u64,
                    next_sqrt_price: next as u128,
                    lp_fee: 0,
                    protocol_fee: 0,
                    partner_fee: 0,
                    referral_fee: 0,
                },
            )
        } else {
            match self.pool_fees.fee_on_amount_spec(
                gross as u64,
                is_referral,
                current_point,
                self.activation_point,
            ) {
                Some(fee) => Ok(swap_result_of(fee.amount, next as u128, fee)),
                None => Err(CpAmmError::FeeCalculationFailure),
            }
        }
    }

    open spec fn swap_result_spec(
        &self,
        amount_in: u64,
        is_referral: bool,
        trade_direction: TradeDirection,
        current_point: u64,
    ) -> Result<SwapResult, CpAmmError> {
        match (self.collect_fee_mode_spec(), trade_direction) {
            (None, _) => Err(CpAmmError::InvalidCollectFeeMode),
            (Some(_), TradeDirection::AtoB) => self.swap_result_from_a_to_b_spec(
                amount_in,
                is_referral,
                current_point,
            ),
            (Some(CollectFeeMode::BothToken), TradeDirection::BtoA) => {
                self.swap_result_from_b_to_a_spec(amount_in, is_referral, false, current_point)
            },
            (Some(CollectFeeMode::OnlyB), TradeDirection::BtoA) => {
                match self.pool_fees.fee_on_amount_spec(
                    amount_in,
                    is_referral,
                    current_point,
                    self.activation_point,
                ) {
                    Some(fee) => match self.swap_result_from_b_to_a_spec(
                        fee.amount,
                        is_referral,
                        true,
                        current_point,
                    ) {
                        Ok(swap) => Ok(
                            swap_result_of(swap.output_amount, swap.next_sqrt_price, fee),
                        ),
                        Err(e) => Err(e),
                    },
                    None => Err(CpAmmError::FeeCalculationFailure),
                }
            },
        }
    }

    open spec fn collect_fee_mode_spec(&self) -> Option<CollectFeeMode> {
        collect_fee_mode_of_byte(self.collect_fee_mode)
    }

    open spec fn activation_type_spec(&self) -> Option<ActivationType> {
        activation_type_of_byte(self.activation_type)
    }

    fn update_pre_swap(&mut self, current_timestamp: u64) -> (r: Result<(), CpAmmError>) {
        if self.pool_fees.dynamic_fee.initialized != 0 {
            let mut dynamic_fee = self.pool_fees.dynamic_fee;
            dynamic_fee.update_references(self.sqrt_price, current_timestamp)?;
            self.pool_fees.dynamic_fee = dynamic_fee;
        }
        Ok(())
    }

    fn get_swap_result(
        &self,
        amount_in: u64,
        is_referral: bool,
        trade_direction: TradeDirection,
        current_point: u64,
    ) -> (r: Result<SwapResult, CpAmmError>) {
        let collect_fee_mode = self.collect_fee_mode()?;
        match *collect_fee_mode {
            CollectFeeMode::BothToken => match trade_direction {
                TradeDirection::AtoB => {
                    self.get_swap_result_from_a_to_b(amount_in, is_referral, current_point)
                },
                TradeDirection::BtoA => {
                    self.get_swap_result_from_b_to_a(amount_in, is_referral, false, current_point)
                },
            },
            CollectFeeMode::OnlyB => match trade_direction {
                TradeDirection::AtoB => {
                    self.get_swap_result_from_a_to_b(amount_in, is_referral, current_point)
                },
                TradeDirection::BtoA => {
                    let fee = self.pool_fees.get_fee_on_amount(
                        amount_in,
                        is_referral,
                        current_point,
                        self.activation_point,
                    )?;
                    let swap_result = self.get_swap_result_from_b_to_a(
                        fee.amount,
                        is_referral,
                        true,
                        current_point,
                    )?;
                    Ok(
                        SwapResult {
                            output_amount: swap_result.output_amount,
                            next_sqrt_price: swap_result.next_sqrt_price,
                            lp_fee: fee.lp_fee,
                            protocol_fee: fee.protocol_fee,
                            partner_fee: fee.partner_fee,
                            referral_fee: fee.referral_fee,
                        },
                    )
                },
            },
        }
    }

    fn get_swap_result_from_a_to_b(&self, amount_in: u64, is_referral: bool, current_point: u64)
        -> (r: Result<SwapResult, CpAmmError>) {
        let next_sqrt_price = get_next_sqrt_price_from_input(
            self.sqrt_price,
            self.liquidity,
            amount_in,
            true,
        )?;
        if next_sqrt_price < self.sqrt_min_price {
            return Err(CpAmmError::PriceRangeViolation);
        }
        let output_amount = get_delta_amount_b_unsigned(
            next_sqrt_price,
            self.sqrt_price,
            self.liquidity,
            Rounding::Down,
        )?;
        let fee = self.pool_fees.get_fee_on_amount(
            output_amount,
            is_referral,
            current_point,
            self.activation_point,
        )?;
        Ok(
            SwapResult {
                output_amount: fee.amount,
                lp_fee: fee.lp_fee,
                protocol_fee: fee.protocol_fee,
                partner_fee: fee.partner_fee,
                referral_fee: fee.referral_fee,
                next_sqrt_price,
            },
        )
    }

    fn get_swap_result_from_b_to_a(
        &self,
        amount_in: u64,
        is_referral: bool,
        is_skip_fee: bool,
        current_point: u64,
    ) -> (r: Result<SwapResult, CpAmmError>) {
        let next_sqrt_price = match get_next_sqrt_price_from_input(
            self.sqrt_price,
            self.liquidity,
            amount_in,
            false,
        ) {
            Ok(price) => price,
            Err(_) => { return Err(CpAmmError::PriceRangeViolation); },
        };
        if next_sqrt_price > self.sqrt_max_price {
            return Err(CpAmmError::PriceRangeViolation);
        }
        let output_amount = get_delta_amount_a_unsigned(
            self.sqrt_price,
            next_sqrt_price,
            self.liquidity,
            Rounding::Down,
        )?;
        if is_skip_fee {
            Ok(
                SwapResult {
                    output_amount,
                    lp_fee: 0,
                    protocol_fee: 0,
                    partner_fee: 0,
                    referral_fee: 0,
                    next_sqrt_price,
                },
            )
        } else {
            let fee = self.pool_fees.get_fee_on_amount(
                output_amount,
                is_referral,
                current_point,
                self.activation_point,
            )?;
            Ok(
                SwapResult {
                    output_amount: fee.amount,
                    lp_fee: fee.lp_fee,
                    protocol_fee: fee.protocol_fee,
                    partner_fee: fee.partner_fee,
                    referral_fee: fee.referral_fee,
                    next_sqrt_price,
                },
            )
        }
    }

    fn collect_fee_mode(&self) -> (r: Result<CollectFeeModeWrapper, CpAmmError>) {
        CollectFeeModeWrapper::try_from(self.collect_fee_mode)
    }

    fn activation_type(&self) -> (r: Result<ActivationTypeWrapper, CpAmmError>) {
        ActivationTypeWrapper::try_from(self.activation_type)
    }
}

/// Whether the fee of a swap is taken from the input before the curve:
/// token B comes in and the pool takes its fees in token B only.
pub open spec fn fee_is_on_input(pool: Pool, trade_direction: TradeDirection) -> bool {
    pool.collect_fee_mode_spec() == Some(CollectFeeMode::OnlyB) && trade_direction
        == TradeDirection::BtoA
}

/// The amount that reaches the curve: the input, less the fee where the fee
/// is taken from the input. There is none where the pool has no fee mode or
/// the fee on the input cannot be computed.
pub open spec fn curve_input_spec(
    pool: Pool,
    amount_in: u64,
    is_referral: bool,
    trade_direction: TradeDirection,
    current_point: u64,
) -> Option<u64> {
    if pool.collect_fee_mode_spec().is_none() {
        None
    } else if fee_is_on_input(pool, trade_direction) {
        match pool.pool_fees.fee_on_amount_spec(
            amount_in,
            is_referral,
            current_point,
            pool.activation_point,
        ) {
            Some(fee) => Some(fee.amount),
            None => None,
        }
    } else {
        Some(amount_in)
    }
}

/// The square-root price to which `curve_input` moves the pool.
pub open spec fn next_sqrt_price_of_swap_spec(
    pool: Pool,
    curve_input: u64,
    trade_direction: TradeDirection,
) -> nat {
    next_sqrt_price_from_input_spec(
        pool.sqrt_price as nat,
        pool.liquidity as nat,
        curve_input as nat,
        trade_direction == TradeDirection::AtoB,
    )
}

/// The amount of the output token that the curve gives for `curve_input`,
/// before any fee.
pub open spec fn gross_output_spec(pool: Pool, curve_input: u64, trade_direction: TradeDirection)
    -> nat {
    let next = next_sqrt_price_of_swap_spec(pool, curve_input, trade_direction);
    match trade_direction {
        TradeDirection::AtoB => delta_amount_b_spec(
            next,
            pool.sqrt_price as nat,
            pool.liquidity as nat,
            Rounding::Down,
        ),
        TradeDirection::BtoA => delta_amount_a_spec(
            pool.sqrt_price as nat,
            next,
            pool.liquidity as nat,
            Rounding::Down,
        ),
    }
}

/// Where the fee is taken from the output, the output amount and the four
/// shares of the fee add up to exactly what the curve gave.
pub proof fn lemma_swap_conserves_output(
    pool: Pool,
    amount_in: u64,
    is_referral: bool,
    trade_direction: TradeDirection,
    current_point: u64,
)
    requires
        !fee_is_on_input(pool, trade_direction),
    ensures
        match pool.swap_result_spec(amount_in, is_referral, trade_direction, current_point) {
            Ok(swap) => swap.output_amount + swap.total_fee() == gross_output_spec(
                pool,
                amount_in,
                trade_direction,
            ),
            Err(_) => true,
        },
{
    let gross = gross_output_spec(pool, amount_in, trade_direction);
    if gross <= u64::MAX {
        lemma_fee_on_amount_conserves(pool, gross as u64, is_referral, current_point);
    }
}

/// Where the fee is taken from the input, the four shares of the fee and
/// the amount that reaches the curve add up to exactly the input, no fee is
/// taken from the output, and the price moves by what reached the curve.
pub proof fn lemma_swap_conserves_input(
    pool: Pool,
    amount_in: u64,
    is_referral: bool,
    trade_direction: TradeDirection,
    current_point: u64,
)
    requires
        fee_is_on_input(pool, trade_direction),
    ensures
        match pool.swap_result_spec(amount_in, is_referral, trade_direction, current_point) {
            Ok(swap) => {
                &&& swap.total_fee() <= amount_in
                &&& curve_input_spec(pool, amount_in, is_referral, trade_direction, current_point)
                    == Some((amount_in - swap.total_fee()) as u64)
                &&& swap.output_amount == gross_output_spec(
                    pool,
                    (amount_in - swap.total_fee()) as u64,
                    trade_direction,
                )
                &&& swap.next_sqrt_price == next_sqrt_price_of_swap_spec(
                    pool,
                    (amount_in - swap.total_fee()) as u64,
                    trade_direction,
                )
            },
            Err(_) => true,
        },
{
    lemma_fee_on_amount_conserves(pool, amount_in, is_referral, current_point);
}

/// The fee on an amount and what is left of the amount add up to the
/// amount.
pub proof fn lemma_fee_on_amount_conserves(
    pool: Pool,
    amount: u64,
    is_referral: bool,
    current_point: u64,
)
    ensures
        match pool.pool_fees.fee_on_amount_spec(
            amount,
            is_referral,
            current_point,
            pool.activation_point,
        ) {
            Some(fee) => fee.amount + fee.total_fee() == amount,
            None => true,
        },
{
    match pool.pool_fees.trade_fee_numerator_spec(current_point, pool.activation_point) {
        Some(numerator) => {
            lemma_split_fee_conserves(
                amount,
                numerator,
                pool.pool_fees.protocol_fee_percent,
                pool.pool_fees.partner_fee_percent,
                pool.pool_fees.referral_fee_percent,
                is_referral,
            );
        },
        None => {},
    }
}

/// On a pool whose price lies within its bounds, a swap fails with
/// `PriceRangeViolation` exactly where the amount that reaches the curve
/// would move the price out of the bounds, and a swap that succeeds reports
/// that price, which lies within the bounds.
pub proof fn lemma_swap_respects_price_range(
    pool: Pool,
    amount_in: u64,
    is_referral: bool,
    trade_direction: TradeDirection,
    current_point: u64,
)
    requires
        pool.is_tradable(),
        pool.sqrt_min_price <= pool.sqrt_price <= pool.sqrt_max_price,
    ensures
        ({
            let result = pool.swap_result_spec(
                amount_in,
                is_referral,
                trade_direction,
                current_point,
            );
            match curve_input_spec(pool, amount_in, is_referral, trade_direction, current_point) {
                Some(curve_input) => {
                    let next = next_sqrt_price_of_swap_spec(pool, curve_input, trade_direction);
                    &&& (next < pool.sqrt_min_price || next > pool.sqrt_max_price) <==> result
                        == Err::<SwapResult, CpAmmError>(CpAmmError::PriceRangeViolation)
                    &&& match result {
                        Ok(swap) => swap.next_sqrt_price == next && pool.sqrt_min_price
                            <= swap.next_sqrt_price <= pool.sqrt_max_price,
                        Err(_) => true,
                    }
                },
                None => result.is_err() && result != Err::<SwapResult, CpAmmError>(
                    CpAmmError::PriceRangeViolation,
                ),
            }
        }),
{
    match curve_input_spec(pool, amount_in, is_referral, trade_direction, current_point) {
        Some(curve_input) => {
            if trade_direction == TradeDirection::AtoB {
                lemma_next_sqrt_price_from_amount_a_is_positive(
                    pool.sqrt_price as nat,
                    pool.liquidity as nat,
                    curve_input as nat,
                );
            }
        },
        None => {},
    }
}

/// A trade of token A for token B gives the same result whether the pool
/// takes its fees in both tokens or in token B only.
pub proof fn lemma_fee_modes_agree_from_a_to_b(
    pool: Pool,
    amount_in: u64,
    is_referral: bool,
    current_point: u64,
)
    ensures
        (Pool { collect_fee_mode: 0, ..pool }).swap_result_spec(
            amount_in,
            is_referral,
            TradeDirection::AtoB,
            current_point,
        ) == (Pool { collect_fee_mode: 1, ..pool }).swap_result_spec(
            amount_in,
            is_referral,
            TradeDirection::AtoB,
            current_point,
        ),
{
}

} // verus!
