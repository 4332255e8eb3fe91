//! Quotes: what a trade on a pool would give, computed on a copy of the
//! pool's snapshot.

use crate::errors::CpAmmError;
use crate::extensions::pool::PoolExtension;
use crate::typedefs::{ActivationType, Config, Pool, SwapResult, TradeDirection};
use vstd::prelude::*;

verus! {

/// The outcome of a quote for an exact input.
#[derive(Debug)]
pub struct SwapExactInQuote {
    pub amount_out: u64,
    pub fee: u64,
}

/// The outcome of a quote for an exact output.
#[derive(Debug)]
pub struct SwapExactOutQuote {
    pub amount_in: u64,
    pub fee: u64,
}

/// The direction of a trade that supplies token A (`a_for_b`) or token B.
pub open spec fn trade_direction_spec(a_for_b: bool) -> TradeDirection {
    if a_for_b {
        TradeDirection::AtoB
    } else {
        TradeDirection::BtoA
    }
}

/// The current point on the time axis of the pool: the slot or the
/// timestamp.
pub open spec fn current_point_spec(pool: Pool, current_timestamp: u64, current_slot: u64)
    -> Result<u64, CpAmmError> {
    match pool.activation_type_spec() {
        Some(ActivationType::Slot) => Ok(current_slot),
        Some(ActivationType::Timestamp) => Ok(current_timestamp),
        None => Err(CpAmmError::InvalidActivationType),
    }
}

/// What a quote for an exact input returns.
///
/// A zero amount is refused first. Then the fee state of the copy is
/// brought up to the timestamp, the current point is read off the time axis
/// of the pool, and the swap is made on the copy.
pub open spec fn quote_exact_in_spec(
    pool: Pool,
    a_for_b: bool,
    current_timestamp: u64,
    current_slot: u64,
    amount_in: u64,
    is_referral: bool,
) -> Result<SwapResult, CpAmmError> {
    if amount_in == 0 {
        Err(CpAmmError::AmountIsZero)
    } else {
        match pool.pre_swap_spec(current_timestamp) {
            Err(e) => Err(e),
            Ok(updated) => match current_point_spec(updated, current_timestamp, current_slot) {
                Err(e) => Err(e),
                Ok(current_point) => updated.swap_result_spec(
                    amount_in,
                    is_referral,
                    trade_direction_spec(a_for_b),
                    current_point,
                ),
            },
        }
    }
}

/// The current point on the time axis of the pool. Fails with
/// `InvalidActivationType` where the pool's byte stands for no time axis.
pub fn get_current_point(pool: &Pool, current_timestamp: u64, current_slot: u64) -> (r: Result<
    u64,
    CpAmmError,
>)
    ensures
        r == current_point_spec(*pool, current_timestamp, current_slot),
{
    let activation_type = pool.activation_type()?;
    let current_point = match *activation_type {
        ActivationType::Slot => current_slot,
        ActivationType::Timestamp => current_timestamp,
    };
    Ok(current_point)
}

/// Quotes a trade of exactly `transfer_fee_excluded_amount_in` of token A
/// (`a_for_b`) or of token B.
///
/// The snapshot that `pool` refers to is not changed. A zero amount fails
/// with `AmountIsZero` whatever the pool holds; any other amount needs a
/// pool with a positive price and positive liquidity.
pub fn quote_exact_in(
    pool: &Pool,
    config: &Config,
    a_for_b: bool,
    current_timestamp: u64,
    current_slot: u64,
    transfer_fee_excluded_amount_in: u64,
    is_referral: bool,
) -> (r: Result<SwapResult, CpAmmError>)
    requires
        transfer_fee_excluded_amount_in > 0 ==> pool.is_tradable(),
    ensures
        r == quote_exact_in_spec(
            *pool,
            a_for_b,
            current_timestamp,
            current_slot,
            transfer_fee_excluded_amount_in,
            is_referral,
        ),
        transfer_fee_excluded_amount_in == 0 ==> r == Err::<SwapResult, CpAmmError>(
            CpAmmError::AmountIsZero,
        ),
{
    let mut pool = *pool;
    if transfer_fee_excluded_amount_in == 0 {
        return Err(CpAmmError::AmountIsZero);
    }
    pool.update_pre_swap(current_timestamp)?;
    let current_point = get_current_point(&pool, current_timestamp, current_slot)?;
    let trade_direction = if a_for_b {
        TradeDirection::AtoB
    } else {
        TradeDirection::BtoA
    };
    pool.get_swap_result(
        transfer_fee_excluded_amount_in,
        is_referral,
        trade_direction,
        current_point,
    )
}

/// A quote for a trade of token A for token B is the same whether the pool
/// takes its fees in both tokens or in token B only.
pub proof fn lemma_quote_fee_modes_agree_from_a_to_b(
    pool: Pool,
    current_timestamp: u64,
    current_slot: u64,
    amount_in: u64,
    is_referral: bool,
)
    ensures
        quote_exact_in_spec(
            Pool { collect_fee_mode: 0, ..pool },
            true,
            current_timestamp,
            current_slot,
            amount_in,
            is_referral,
        ) == quote_exact_in_spec(
            Pool { collect_fee_mode: 1, ..pool },
            true,
            current_timestamp,
            current_slot,
            amount_in,
            is_referral,
        ),
{
    let both = Pool { collect_fee_mode: 0, ..pool };
    let only_b = Pool { collect_fee_mode: 1, ..pool };
    match (both.pre_swap_spec(current_timestamp), only_b.pre_swap_spec(current_timestamp)) {
        (Ok(updated_both), Ok(updated_only_b)) => {
            assert(updated_only_b == Pool { collect_fee_mode: 1, ..updated_both });
            assert(updated_both == Pool { collect_fee_mode: 0, ..updated_both });
        },
        _ => {},
    }
}

} // verus!
