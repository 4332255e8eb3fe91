use cp_amm_client::errors::CpAmmError;
use cp_amm_client::math::fee::{
    BASIS_POINT_MAX, FEE_DENOMINATOR, MAX_FEE_NUMERATOR, VARIABLE_FEE_SCALE,
};
use cp_amm_client::typedefs::{
    BaseFeeStruct, DynamicFeeStruct, FeeOnAmountResult, PoolFeesStruct,
};

fn flat_base_fee(numerator: u64) -> BaseFeeStruct {
    BaseFeeStruct {
        cliff_fee_numerator: numerator,
        number_of_period: 0,
        period_frequency: 0,
        reduction_factor: 0,
    }
}

fn no_dynamic_fee() -> DynamicFeeStruct {
    DynamicFeeStruct {
        initialized: 0,
        max_volatility_accumulator: 0,
        variable_fee_control: 0,
        bin_step: 0,
        filter_period: 0,
        decay_period: 0,
        reduction_factor: 0,
        last_update_timestamp: 0,
        bin_step_u128: 0,
        sqrt_price_reference: 0,
        volatility_accumulator: 0,
        volatility_reference: 0,
    }
}

fn dynamic_fee() -> DynamicFeeStruct {
    DynamicFeeStruct {
        initialized: 1,
        max_volatility_accumulator: 14_460_000,
        variable_fee_control: 956_000,
        bin_step: 1,
        filter_period: 10,
        decay_period: 120,
        reduction_factor: 5_000,
        last_update_timestamp: 1_000,
        bin_step_u128: 1_844_674_407_370_955,
        sqrt_price_reference: 1 << 64,
        volatility_accumulator: 100_000,
        volatility_reference: 7,
    }
}

fn fees(numerator: u64, protocol: u8, partner: u8, referral: u8) -> PoolFeesStruct {
    PoolFeesStruct {
        base_fee: flat_base_fee(numerator),
        protocol_fee_percent: protocol,
        partner_fee_percent: partner,
        referral_fee_percent: referral,
        dynamic_fee: no_dynamic_fee(),
    }
}

fn sum(split: &FeeOnAmountResult) -> u128 {
    split.amount as u128
        + split.lp_fee as u128
        + split.protocol_fee as u128
        + split.partner_fee as u128
        + split.referral_fee as u128
}

#[test]
fn fee_constants() {
    assert_eq!(FEE_DENOMINATOR, 1_000_000_000);
    assert_eq!(MAX_FEE_NUMERATOR, 500_000_000);
    assert_eq!(BASIS_POINT_MAX, 10_000);
    assert_eq!(VARIABLE_FEE_SCALE, 100_000_000_000);
}

#[test]
fn flat_base_fee_ignores_the_point() {
    let base = flat_base_fee(2_500_000);
    assert_eq!(base.get_current_base_fee_numerator(0, 100), Ok(2_500_000));
    assert_eq!(base.get_current_base_fee_numerator(100, 100), Ok(2_500_000));
    assert_eq!(base.get_current_base_fee_numerator(u64::MAX, 0), Ok(2_500_000));
}

#[test]
fn scheduled_base_fee_drops_by_period() {
    let base = BaseFeeStruct {
        cliff_fee_numerator: 100_000_000,
        number_of_period: 10,
        period_frequency: 60,
        reduction_factor: 9_000_000,
    };
    assert_eq!(base.get_current_base_fee_numerator(1_000, 1_000), Ok(100_000_000));
    assert_eq!(base.get_current_base_fee_numerator(1_059, 1_000), Ok(100_000_000));
    assert_eq!(base.get_current_base_fee_numerator(1_060, 1_000), Ok(91_000_000));
    assert_eq!(base.get_current_base_fee_numerator(1_000 + 5 * 60 + 59, 1_000), Ok(55_000_000));
    assert_eq!(base.get_current_base_fee_numerator(1_600, 1_000), Ok(10_000_000));
    assert_eq!(base.get_current_base_fee_numerator(u64::MAX, 1_000), Ok(10_000_000));
    // Before the activation point every period counts as passed.
    assert_eq!(base.get_current_base_fee_numerator(999, 1_000), Ok(10_000_000));
}

#[test]
fn scheduled_base_fee_below_zero_is_an_overflow() {
    let base = BaseFeeStruct {
        cliff_fee_numerator: 100,
        number_of_period: 3,
        period_frequency: 1,
        reduction_factor: 40,
    };
    assert_eq!(base.get_current_base_fee_numerator(2, 0), Ok(20));
    assert_eq!(base.get_current_base_fee_numerator(3, 0), Err(CpAmmError::MathOverflow));
    let base = BaseFeeStruct { reduction_factor: u64::MAX, ..base };
    assert_eq!(base.get_current_base_fee_numerator(2, 0), Err(CpAmmError::MathOverflow));
    assert_eq!(base.get_current_base_fee_numerator(0, 0), Ok(100));
}

#[test]
fn variable_fee_is_zero_without_dynamic_fee() {
    assert!(!no_dynamic_fee().is_dynamic_fee_enable());
    assert_eq!(no_dynamic_fee().get_variable_fee(), Ok(0));
    let off = DynamicFeeStruct { initialized: 0, ..dynamic_fee() };
    assert_eq!(off.get_variable_fee(), Ok(0));
}

#[test]
fn variable_fee_is_scaled_and_rounded_up() {
    let state = dynamic_fee();
    assert!(state.is_dynamic_fee_enable());
    // (100_000 * 1)^2 * 956_000 = 9.56e15; divided by 1e11 and rounded up.
    assert_eq!(state.get_variable_fee(), Ok(95_600));
    let state = DynamicFeeStruct { volatility_accumulator: 100_001, ..dynamic_fee() };
    // 100_001^2 * 956_000 = 9_560_191_200_956_000 -> 95_601.9 -> 95_602.
    assert_eq!(state.get_variable_fee(), Ok(95_602));
    let state = DynamicFeeStruct { volatility_accumulator: 0, ..dynamic_fee() };
    assert_eq!(state.get_variable_fee(), Ok(0));
}

#[test]
fn variable_fee_overflow() {
    let state = DynamicFeeStruct { volatility_accumulator: u128::MAX, bin_step: 2, ..dynamic_fee() };
    assert_eq!(state.get_variable_fee(), Err(CpAmmError::MathOverflow));
    let state = DynamicFeeStruct { volatility_accumulator: 1 << 64, ..dynamic_fee() };
    assert_eq!(state.get_variable_fee(), Err(CpAmmError::MathOverflow));
    let state = DynamicFeeStruct {
        volatility_accumulator: 1 << 64,
        variable_fee_control: 0,
        ..dynamic_fee()
    };
    assert_eq!(state.get_variable_fee(), Err(CpAmmError::MathOverflow));
    let state = DynamicFeeStruct {
        volatility_accumulator: (1 << 64) - 1,
        variable_fee_control: 2,
        ..dynamic_fee()
    };
    assert_eq!(state.get_variable_fee(), Err(CpAmmError::MathOverflow));
}

#[test]
fn references_stay_within_the_filter_period() {
    let mut state = dynamic_fee();
    assert_eq!(state.update_references(5 << 64, 1_009), Ok(()));
    assert_eq!(state, dynamic_fee());
}

#[test]
fn references_decay_within_the_decay_period() {
    let mut state = dynamic_fee();
    assert_eq!(state.update_references(5 << 64, 1_010), Ok(()));
    assert_eq!(
        state,
        DynamicFeeStruct {
            sqrt_price_reference: 5 << 64,
            volatility_reference: 50_000,
            ..dynamic_fee()
        }
    );
    let mut state = DynamicFeeStruct { volatility_accumulator: 33_333, ..dynamic_fee() };
    assert_eq!(state.update_references(9, 1_119), Ok(()));
    assert_eq!(state.sqrt_price_reference, 9);
    assert_eq!(state.volatility_reference, 16_666);
}

#[test]
fn references_reset_after_the_decay_period() {
    let mut state = dynamic_fee();
    assert_eq!(state.update_references(5 << 64, 1_120), Ok(()));
    assert_eq!(
        state,
        DynamicFeeStruct { sqrt_price_reference: 5 << 64, volatility_reference: 0, ..dynamic_fee() }
    );
}

#[test]
fn references_fail_without_a_change() {
    let mut state = dynamic_fee();
    assert_eq!(state.update_references(5 << 64, 999), Err(CpAmmError::MathOverflow));
    assert_eq!(state, dynamic_fee());
    let start = DynamicFeeStruct { volatility_accumulator: u128::MAX, ..dynamic_fee() };
    let mut state = start;
    assert_eq!(state.update_references(5 << 64, 1_050), Err(CpAmmError::MathOverflow));
    assert_eq!(state, start);
}

#[test]
fn total_trading_fee_adds_base_and_variable() {
    let mut pool_fees = fees(2_500_000, 20, 0, 20);
    assert_eq!(pool_fees.get_total_trading_fee(0, 0), Ok(2_500_000));
    pool_fees.dynamic_fee = dynamic_fee();
    assert_eq!(pool_fees.get_total_trading_fee(0, 0), Ok(2_595_600));
    pool_fees.dynamic_fee.volatility_accumulator = 1 << 64;
    assert_eq!(pool_fees.get_total_trading_fee(0, 0), Err(CpAmmError::MathOverflow));
}

#[test]
fn fee_is_split_in_order() {
    let pool_fees = fees(2_500_000, 20, 50, 20);
    assert_eq!(
        pool_fees.get_fee_on_amount(999_999, true, 0, 0),
        Ok(FeeOnAmountResult {
            amount: 997_499,
            lp_fee: 2_000,
            protocol_fee: 200,
            partner_fee: 200,
            referral_fee: 100,
        })
    );
    assert_eq!(
        pool_fees.get_fee_on_amount(999_999, false, 0, 0),
        Ok(FeeOnAmountResult {
            amount: 997_499,
            lp_fee: 2_000,
            protocol_fee: 250,
            partner_fee: 250,
            referral_fee: 0,
        })
    );
}

#[test]
fn fee_rounds_up() {
    let pool_fees = fees(1, 0, 0, 0);
    assert_eq!(
        pool_fees.get_fee_on_amount(1, false, 0, 0),
        Ok(FeeOnAmountResult { amount: 0, lp_fee: 1, protocol_fee: 0, partner_fee: 0, referral_fee: 0 })
    );
    assert_eq!(
        pool_fees.get_fee_on_amount(0, false, 0, 0),
        Ok(FeeOnAmountResult { amount: 0, lp_fee: 0, protocol_fee: 0, partner_fee: 0, referral_fee: 0 })
    );
}

#[test]
fn zero_fee_takes_nothing() {
    let pool_fees = fees(0, 20, 50, 20);
    assert_eq!(
        pool_fees.get_fee_on_amount(u64::MAX, true, 0, 0),
        Ok(FeeOnAmountResult {
            amount: u64::MAX,
            lp_fee: 0,
            protocol_fee: 0,
            partner_fee: 0,
            referral_fee: 0,
        })
    );
}

#[test]
fn fee_rate_is_capped_at_one_half() {
    let pool_fees = fees(900_000_000, 0, 0, 0);
    assert_eq!(
        pool_fees.get_fee_on_amount(1_000, false, 0, 0),
        Ok(FeeOnAmountResult {
            amount: 500,
            lp_fee: 500,
            protocol_fee: 0,
            partner_fee: 0,
            referral_fee: 0,
        })
    );
    let pool_fees = fees(u64::MAX, 0, 0, 0);
    assert_eq!(pool_fees.get_fee_on_amount(1_001, false, 0, 0).unwrap().lp_fee, 501);
}

#[test]
fn fee_with_dynamic_part() {
    let mut pool_fees = fees(2_500_000, 0, 0, 0);
    pool_fees.dynamic_fee = dynamic_fee();
    // 1e9 * 2_595_600 / 1e9.
    assert_eq!(pool_fees.get_fee_on_amount(1_000_000_000, false, 0, 0).unwrap().lp_fee, 2_595_600);
}

#[test]
fn split_hands_out_the_whole_amount() {
    for numerator in [0u64, 1, 2_500_000, 123_456_789, MAX_FEE_NUMERATOR, u64::MAX] {
        for (protocol, partner, referral) in [(0u8, 0u8, 0u8), (20, 50, 20), (100, 100, 100), (33, 67, 1)] {
            for amount in [0u64, 1, 2, 999, 1_000_000_007, u64::MAX] {
                for is_referral in [false, true] {
                    let pool_fees = fees(numerator, protocol, partner, referral);
                    let split = pool_fees.get_fee_on_amount(amount, is_referral, 0, 0).unwrap();
                    assert_eq!(sum(&split), amount as u128);
                    if !is_referral {
                        assert_eq!(split.referral_fee, 0);
                    }
                }
            }
        }
    }
}

#[test]
fn fee_fails_where_the_rate_does() {
    let mut pool_fees = fees(100, 0, 0, 0);
    pool_fees.base_fee = BaseFeeStruct {
        cliff_fee_numerator: 100,
        number_of_period: 3,
        period_frequency: 1,
        reduction_factor: 40,
    };
    assert!(pool_fees.get_fee_on_amount(1_000, false, 2, 0).is_ok());
    assert_eq!(
        pool_fees.get_fee_on_amount(1_000, false, 3, 0),
        Err(CpAmmError::FeeCalculationFailure)
    );
    let mut pool_fees = fees(100, 0, 0, 0);
    pool_fees.dynamic_fee = DynamicFeeStruct { volatility_accumulator: 1 << 64, ..dynamic_fee() };
    assert_eq!(
        pool_fees.get_fee_on_amount(1_000, false, 0, 0),
        Err(CpAmmError::FeeCalculationFailure)
    );
}

#[test]
fn share_above_a_hundred_percent_fails() {
    assert_eq!(
        fees(2_500_000, 101, 0, 0).get_fee_on_amount(1_000_000, false, 0, 0),
        Err(CpAmmError::FeeCalculationFailure)
    );
    assert_eq!(
        fees(2_500_000, 20, 200, 0).get_fee_on_amount(1_000_000, false, 0, 0),
        Err(CpAmmError::FeeCalculationFailure)
    );
    assert_eq!(
        fees(2_500_000, 20, 0, 255).get_fee_on_amount(1_000_000, true, 0, 0),
        Err(CpAmmError::FeeCalculationFailure)
    );
    // Without a referrer the referral share is not looked at.
    assert!(fees(2_500_000, 20, 0, 255).get_fee_on_amount(1_000_000, false, 0, 0).is_ok());
    // A share above a hundred percent of nothing is nothing.
    assert!(fees(0, 255, 255, 255).get_fee_on_amount(1_000_000, true, 0, 0).is_ok());
}
