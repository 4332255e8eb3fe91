//! The plain data of a quote: the snapshot of a pool, its fee parameters,
//! and the results of a fee computation and of a swap.

use vstd::prelude::*;

verus! {

/// Which token a trade supplies.
#[derive(Clone, Copy, Debug, PartialEq, Eq, Structural)]
pub enum TradeDirection {
    /// Token A comes in, token B goes out.
    AtoB,
    /// Token B comes in, token A goes out.
    BtoA,
}

/// The counter by which a pool measures time.
#[derive(Clone, Copy, Debug, PartialEq, Eq, Structural)]
pub enum ActivationType {
    Slot,
    Timestamp,
}

/// The token in which a pool takes its fees.
#[derive(Clone, Copy, Debug, PartialEq, Eq, Structural)]
pub enum CollectFeeMode {
    /// The fee is taken from the output, whichever token that is.
    BothToken,
    /// The fee is always taken in token B.
    OnlyB,
}

/// The base fee and its schedule.
///
/// The fee rate starts at `cliff_fee_numerator` when the pool is activated
/// and drops by `reduction_factor` with each period of `period_frequency`
/// points, for at most `number_of_period` periods. A `period_frequency` of
/// zero switches the schedule off.
#[derive(Clone, Copy, Debug, PartialEq, Eq, Structural)]
pub struct BaseFeeStruct {
    pub cliff_fee_numerator: u64,
    pub number_of_period: u16,
    pub period_frequency: u64,
    pub reduction_factor: u64,
}

/// The state of the fee that follows volatility.
#[derive(Clone, Copy, Debug, PartialEq, Eq, Structural)]
pub struct DynamicFeeStruct {
    /// Zero where the pool has no dynamic fee.
    pub initialized: u8,
    pub max_volatility_accumulator: u32,
    pub variable_fee_control: u32,
    pub bin_step: u16,
    pub filter_period: u16,
    pub decay_period: u16,
    pub reduction_factor: u16,
    pub last_update_timestamp: u64,
    pub bin_step_u128: u128,
    pub sqrt_price_reference: u128,
    pub volatility_accumulator: u128,
    pub volatility_reference: u128,
}

/// The fee parameters of a pool. The three shares are percentages.
#[derive(Clone, Copy, Debug, PartialEq, Eq, Structural)]
pub struct PoolFeesStruct {
    pub base_fee: BaseFeeStruct,
    pub protocol_fee_percent: u8,
    pub partner_fee_percent: u8,
    pub referral_fee_percent: u8,
    pub dynamic_fee: DynamicFeeStruct,
}

/// What is left of an amount after the fee, and the four shares of the fee.
#[derive(Clone, Copy, Debug, PartialEq, Eq, Structural)]
pub struct FeeOnAmountResult {
    pub amount: u64,
    pub lp_fee: u64,
    pub protocol_fee: u64,
    pub partner_fee: u64,
    pub referral_fee: u64,
}

impl FeeOnAmountResult {
    /// The four shares together.
    pub open spec fn total_fee(self) -> nat {
        (self.lp_fee + self.protocol_fee + self.partner_fee + self.referral_fee) as nat
    }
}

/// The outcome of a swap.
#[derive(Clone, Copy, Debug, PartialEq, Eq, Structural)]
pub struct SwapResult {
    pub output_amount: u64,
    pub next_sqrt_price: u128,
    pub lp_fee: u64,
    pub protocol_fee: u64,
    pub partner_fee: u64,
    pub referral_fee: u64,
}

impl SwapResult {
    /// The four shares of the fee together.
    pub open spec fn total_fee(self) -> nat {
        (self.lp_fee + self.protocol_fee + self.partner_fee + self.referral_fee) as nat
    }
}

/// A snapshot of a pool.
#[derive(Clone, Copy, Debug, PartialEq, Eq, Structural)]
pub struct Pool {
    pub pool_fees: PoolFeesStruct,
    pub liquidity: u128,
    pub sqrt_min_price: u128,
    pub sqrt_max_price: u128,
    pub sqrt_price: u128,
    /// The slot or timestamp at which the pool opens.
    pub activation_point: u64,
    /// `ActivationType` as a byte: 0 for slots, 1 for timestamps.
    pub activation_type: u8,
    /// `CollectFeeMode` as a byte: 0 for both tokens, 1 for token B only.
    pub collect_fee_mode: u8,
}

/// The parameters that the pools of one configuration share.
#[derive(Clone, Copy, Debug, PartialEq, Eq, Structural)]
pub struct Config {
    pub pool_fees: PoolFeesStruct,
    pub sqrt_min_price: u128,
    pub sqrt_max_price: u128,
    pub activation_type: u8,
    pub collect_fee_mode: u8,
    pub index: u64,
}

} // verus!
