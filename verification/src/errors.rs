//! The error codes that a pool reports.
//!
//! Every failure of this crate is one of these kinds. Each kind has a numeric
//! code, counted up from 6000 in the order of declaration, and a short message.

use vstd::prelude::*;

verus! {

/// The code of the first error kind.
pub const ERROR_CODE_BASE: u32 = 6000;

/// The code of the last error kind.
pub const ERROR_CODE_LAST: u32 = 6082;

/// A kind of failure.
#[derive(Clone, Copy, Debug, PartialEq, Eq, Structural)]
pub enum CpAmmError {
    /// Math operation overflow.
    MathOverflow,
    /// Invalid fee setup.
    InvalidFee,
    /// Invalid invariant d.
    InvalidInvariant,
    /// Fee calculation failure.
    FeeCalculationFailure,
    /// Exceeded slippage tolerance.
    ExceededSlippage,
    /// Invalid curve calculation.
    InvalidCalculation,
    /// Given pool token amount results in zero trading tokens.
    ZeroTradingTokens,
    /// Math conversion overflow.
    ConversionError,
    /// LP mint authority must be 'A' vault lp, without freeze authority, and 0 supply.
    FaultyLpMint,
    /// Token mint mismatched.
    MismatchedTokenMint,
    /// LP mint mismatched.
    MismatchedLpMint,
    /// Invalid lp token owner.
    MismatchedOwner,
    /// Invalid vault account.
    InvalidVaultAccount,
    /// Invalid vault lp account.
    InvalidVaultLpAccount,
    /// Invalid pool lp mint account.
    InvalidPoolLpMintAccount,
    /// Pool disabled.
    PoolDisabled,
    /// Invalid admin account.
    InvalidAdminAccount,
    /// Invalid protocol fee account.
    InvalidProtocolFeeAccount,
    /// Same admin account.
    SameAdminAccount,
    /// Identical user source and destination token account.
    IdenticalSourceDestination,
    /// Apy calculation error.
    ApyCalculationError,
    /// Insufficient virtual price snapshot.
    InsufficientSnapshot,
    /// Current curve is non-updatable.
    NonUpdatableCurve,
    /// New curve is mismatched with old curve.
    MisMatchedCurve,
    /// Amplification is invalid.
    InvalidAmplification,
    /// Operation is not supported.
    UnsupportedOperation,
    /// Exceed max amplification changes.
    ExceedMaxAChanges,
    /// Invalid remaining accounts length.
    InvalidRemainingAccountsLen,
    /// Invalid remaining account.
    InvalidRemainingAccounts,
    /// Token mint B doesn't matches depeg type token mint.
    MismatchedDepegMint,
    /// Invalid APY account.
    InvalidApyAccount,
    /// Invalid token multiplier.
    InvalidTokenMultiplier,
    /// Invalid depeg information.
    InvalidDepegInformation,
    /// Update time constraint violated.
    UpdateTimeConstraint,
    /// Exceeded max fee bps.
    ExceedMaxFeeBps,
    /// Invalid admin.
    InvalidAdmin,
    /// Pool is not permissioned.
    PoolIsNotPermissioned,
    /// Invalid deposit amount.
    InvalidDepositAmount,
    /// Invalid fee owner.
    InvalidFeeOwner,
    /// Pool is not depleted.
    NonDepletedPool,
    /// Token amount is not 1:1.
    AmountNotPeg,
    /// Amount is zero.
    AmountIsZero,
    /// Type cast error.
    TypeCastFailed,
    /// Amount is not enough.
    AmountIsNotEnough,
    /// Invalid activation duration.
    InvalidActivationDuration,
    /// Pool is not launch pool.
    PoolIsNotLaunchPool,
    /// Unable to modify activation point.
    UnableToModifyActivationPoint,
    /// Invalid authority to create the pool.
    InvalidAuthorityToCreateThePool,
    /// Invalid activation type.
    InvalidActivationType,
    /// Invalid activation point.
    InvalidActivationPoint,
    /// Pre activation swap window started.
    PreActivationSwapStarted,
    /// Invalid pool type.
    InvalidPoolType,
    /// Quote token must be SOL,USDC.
    InvalidQuoteMint,
    /// Invalid fee curve.
    InvalidFeeCurve,
    /// Invalid Price Range.
    InvalidPriceRange,
    /// Trade is over price range.
    PriceRangeViolation,
    /// Invalid parameters.
    InvalidParameters,
    /// Invalid collect fee mode.
    InvalidCollectFeeMode,
    /// Invalid input.
    InvalidInput,
    /// Cannot create token badge on supported mint.
    CannotCreateTokenBadgeOnSupportedMint,
    /// Invalid token badge.
    InvalidTokenBadge,
    /// Invalid minimum liquidity.
    InvalidMinimumLiquidity,
    /// Invalid position owner.
    InvalidPositionOwner,
    /// Invalid vesting information.
    InvalidVestingInfo,
    /// Insufficient liquidity.
    InsufficientLiquidity,
    /// Invalid vesting account.
    InvalidVestingAccount,
    /// Invalid pool status.
    InvalidPoolStatus,
    /// Unsupported native mint token2022.
    UnsupportNativeMintToken2022,
    /// Reward mint is not support.
    RewardMintIsNotSupport,
    /// Invalid reward index.
    InvalidRewardIndex,
    /// Invalid reward duration.
    InvalidRewardDuration,
    /// Reward already initialized.
    RewardInitialized,
    /// Reward not initialized.
    RewardUninitialized,
    /// Invalid reward vault.
    InvalidRewardVault,
    /// Must withdraw ineligible reward.
    MustWithdrawnIneligibleReward,
    /// Withdraw to wrong token account.
    WithdrawToWrongTokenAccount,
    /// Reward duration is the same.
    IdenticalRewardDuration,
    /// Reward campaign in progress.
    RewardCampaignInProgress,
    /// Identical funder.
    IdenticalFunder,
    /// Invalid funder.
    InvalidFunder,
    /// Reward not ended.
    RewardNotEnded,
    /// Invalid extension.
    InvalidExtension,
    /// Fee inverse is incorrect.
    FeeInverseIsIncorrect,
}

impl CpAmmError {
    /// The numeric code of this kind.
    pub open spec fn code_spec(self) -> u32 {
        match self {
            CpAmmError::MathOverflow => 6000u32,
            CpAmmError::InvalidFee => 6001u32,
            CpAmmError::InvalidInvariant => 6002u32,
            CpAmmError::FeeCalculationFailure => 6003u32,
            CpAmmError::ExceededSlippage => 6004u32,
            CpAmmError::InvalidCalculation => 6005u32,
            CpAmmError::ZeroTradingTokens => 6006u32,
            CpAmmError::ConversionError => 6007u32,
            CpAmmError::FaultyLpMint => 6008u32,
            CpAmmError::MismatchedTokenMint => 6009u32,
            CpAmmError::MismatchedLpMint => 6010u32,
            CpAmmError::MismatchedOwner => 6011u32,
            CpAmmError::InvalidVaultAccount => 6012u32,
            CpAmmError::InvalidVaultLpAccount => 6013u32,
            CpAmmError::InvalidPoolLpMintAccount => 6014u32,
            CpAmmError::PoolDisabled => 6015u32,
            CpAmmError::InvalidAdminAccount => 6016u32,
            CpAmmError::InvalidProtocolFeeAccount => 6017u32,
            CpAmmError::SameAdminAccount => 6018u32,
            CpAmmError::IdenticalSourceDestination => 6019u32,
            CpAmmError::ApyCalculationError => 6020u32,
            CpAmmError::InsufficientSnapshot => 6021u32,
            CpAmmError::NonUpdatableCurve => 6022u32,
            CpAmmError::MisMatchedCurve => 6023u32,
            CpAmmError::InvalidAmplification => 6024u32,
            CpAmmError::UnsupportedOperation => 6025u32,
            CpAmmError::ExceedMaxAChanges => 6026u32,
            CpAmmError::InvalidRemainingAccountsLen => 6027u32,
            CpAmmError::InvalidRemainingAccounts => 6028u32,
            CpAmmError::MismatchedDepegMint => 6029u32,
            CpAmmError::InvalidApyAccount => 6030u32,
            CpAmmError::InvalidTokenMultiplier => 6031u32,
            CpAmmError::InvalidDepegInformation => 6032u32,
            CpAmmError::UpdateTimeConstraint => 6033u32,
            CpAmmError::ExceedMaxFeeBps => 6034u32,
            CpAmmError::InvalidAdmin => 6035u32,
            CpAmmError::PoolIsNotPermissioned => 6036u32,
            CpAmmError::InvalidDepositAmount => 6037u32,
            CpAmmError::InvalidFeeOwner => 6038u32,
            CpAmmError::NonDepletedPool => 6039u32,
            CpAmmError::AmountNotPeg => 6040u32,
            CpAmmError::AmountIsZero => 6041u32,
            CpAmmError::TypeCastFailed => 6042u32,
            CpAmmError::AmountIsNotEnough => 6043u32,
            CpAmmError::InvalidActivationDuration => 6044u32,
            CpAmmError::PoolIsNotLaunchPool => 6045u32,
            CpAmmError::UnableToModifyActivationPoint => 6046u32,
            CpAmmError::InvalidAuthorityToCreateThePool => 6047u32,
            CpAmmError::InvalidActivationType => 6048u32,
            CpAmmError::InvalidActivationPoint => 6049u32,
            CpAmmError::PreActivationSwapStarted => 6050u32,
            CpAmmError::InvalidPoolType => 6051u32,
            CpAmmError::InvalidQuoteMint => 6052u32,
            CpAmmError::InvalidFeeCurve => 6053u32,
            CpAmmError::InvalidPriceRange => 6054u32,
            CpAmmError::PriceRangeViolation => 6055u32,
            CpAmmError::InvalidParameters => 6056u32,
            CpAmmError::InvalidCollectFeeMode => 6057u32,
            CpAmmError::InvalidInput => 6058u32,
            CpAmmError::CannotCreateTokenBadgeOnSupportedMint => 6059u32,
            CpAmmError::InvalidTokenBadge => 6060u32,
            CpAmmError::InvalidMinimumLiquidity => 6061u32,
            CpAmmError::InvalidPositionOwner => 6062u32,
            CpAmmError::InvalidVestingInfo => 6063u32,
            CpAmmError::InsufficientLiquidity => 6064u32,
            CpAmmError::InvalidVestingAccount => 6065u32,
            CpAmmError::InvalidPoolStatus => 6066u32,
            CpAmmError::UnsupportNativeMintToken2022 => 6067u32,
            CpAmmError::RewardMintIsNotSupport => 6068u32,
            CpAmmError::InvalidRewardIndex => 6069u32,
            CpAmmError::InvalidRewardDuration => 6070u32,
            CpAmmError::RewardInitialized => 6071u32,
            CpAmmError::RewardUninitialized => 6072u32,
            CpAmmError::InvalidRewardVault => 6073u32,
            CpAmmError::MustWithdrawnIneligibleReward => 6074u32,
            CpAmmError::WithdrawToWrongTokenAccount => 6075u32,
            CpAmmError::IdenticalRewardDuration => 6076u32,
            CpAmmError::RewardCampaignInProgress => 6077u32,
            CpAmmError::IdenticalFunder => 6078u32,
            CpAmmError::InvalidFunder => 6079u32,
            CpAmmError::RewardNotEnded => 6080u32,
            CpAmmError::InvalidExtension => 6081u32,
            CpAmmError::FeeInverseIsIncorrect => 6082u32,
        }
    }

    /// The message of this kind.
    pub open spec fn message_spec(self) -> Seq<char> {
        match self {
            CpAmmError::MathOverflow => "Math operation overflow"@,
            CpAmmError::InvalidFee => "Invalid fee setup"@,
            CpAmmError::InvalidInvariant => "Invalid invariant d"@,
            CpAmmError::FeeCalculationFailure => "Fee calculation failure"@,
            CpAmmError::ExceededSlippage => "Exceeded slippage tolerance"@,
            CpAmmError::InvalidCalculation => "Invalid curve calculation"@,
            CpAmmError::ZeroTradingTokens => "Given pool token amount results in zero trading tokens"@,
            CpAmmError::ConversionError => "Math conversion overflow"@,
            CpAmmError::FaultyLpMint => "LP mint authority must be 'A' vault lp, without freeze authority, and 0 supply"@,
            CpAmmError::MismatchedTokenMint => "Token mint mismatched"@,
            CpAmmError::MismatchedLpMint => "LP mint mismatched"@,
            CpAmmError::MismatchedOwner => "Invalid lp token owner"@,
            CpAmmError::InvalidVaultAccount => "Invalid vault account"@,
            CpAmmError::InvalidVaultLpAccount => "Invalid vault lp account"@,
            CpAmmError::InvalidPoolLpMintAccount => "Invalid pool lp mint account"@,
            CpAmmError::PoolDisabled => "Pool disabled"@,
            CpAmmError::InvalidAdminAccount => "Invalid admin account"@,
            CpAmmError::InvalidProtocolFeeAccount => "Invalid protocol fee account"@,
            CpAmmError::SameAdminAccount => "Same admin account"@,
            CpAmmError::IdenticalSourceDestination => "Identical user source and destination token account"@,
            CpAmmError::ApyCalculationError => "Apy calculation error"@,
            CpAmmError::InsufficientSnapshot => "Insufficient virtual price snapshot"@,
            CpAmmError::NonUpdatableCurve => "Current curve is non-updatable"@,
            CpAmmError::MisMatchedCurve => "New curve is mismatched with old curve"@,
            CpAmmError::InvalidAmplification => "Amplification is invalid"@,
            CpAmmError::UnsupportedOperation => "Operation is not supported"@,
            CpAmmError::ExceedMaxAChanges => "Exceed max amplification changes"@,
            CpAmmError::InvalidRemainingAccountsLen => "Invalid remaining accounts length"@,
            CpAmmError::InvalidRemainingAccounts => "Invalid remaining account"@,
            CpAmmError::MismatchedDepegMint => "Token mint B doesn't matches depeg type token mint"@,
            CpAmmError::InvalidApyAccount => "Invalid APY account"@,
            CpAmmError::InvalidTokenMultiplier => "Invalid token multiplier"@,
            CpAmmError::InvalidDepegInformation => "Invalid depeg information"@,
            CpAmmError::UpdateTimeConstraint => "Update time constraint violated"@,
            CpAmmError::ExceedMaxFeeBps => "Exceeded max fee bps"@,
            CpAmmError::InvalidAdmin => "Invalid admin"@,
            CpAmmError::PoolIsNotPermissioned => "Pool is not permissioned"@,
            CpAmmError::InvalidDepositAmount => "Invalid deposit amount"@,
            CpAmmError::InvalidFeeOwner => "Invalid fee owner"@,
            CpAmmError::NonDepletedPool => "Pool is not depleted"@,
            CpAmmError::AmountNotPeg => "Token amount is not 1:1"@,
            CpAmmError::AmountIsZero => "Amount is zero"@,
            CpAmmError::TypeCastFailed => "Type cast error"@,
            CpAmmError::AmountIsNotEnough => "Amount is not enough"@,
            CpAmmError::InvalidActivationDuration => "Invalid activation duration"@,
            CpAmmError::PoolIsNotLaunchPool => "Pool is not launch pool"@,
            CpAmmError::UnableToModifyActivationPoint => "Unable to modify activation point"@,
            CpAmmError::InvalidAuthorityToCreateThePool => "Invalid authority to create the pool"@,
            CpAmmError::InvalidActivationType => "Invalid activation type"@,
            CpAmmError::InvalidActivationPoint => "Invalid activation point"@,
            CpAmmError::PreActivationSwapStarted => "Pre activation swap window started"@,
            CpAmmError::InvalidPoolType => "Invalid pool type"@,
            CpAmmError::InvalidQuoteMint => "Quote token must be SOL,USDC"@,
            CpAmmError::InvalidFeeCurve => "Invalid fee curve"@,
            CpAmmError::InvalidPriceRange => "Invalid Price Range"@,
            CpAmmError::PriceRangeViolation => "Trade is over price range"@,
            CpAmmError::InvalidParameters => "Invalid parameters"@,
            CpAmmError::InvalidCollectFeeMode => "Invalid collect fee mode"@,
            CpAmmError::InvalidInput => "Invalid input"@,
            CpAmmError::CannotCreateTokenBadgeOnSupportedMint => "Cannot create token badge on supported mint"@,
            CpAmmError::InvalidTokenBadge => "Invalid token badge"@,
            CpAmmError::InvalidMinimumLiquidity => "Invalid minimum liquidity"@,
            CpAmmError::InvalidPositionOwner => "Invalid position owner"@,
            CpAmmError::InvalidVestingInfo => "Invalid vesting information"@,
            CpAmmError::InsufficientLiquidity => "Insufficient liquidity"@,
            CpAmmError::InvalidVestingAccount => "Invalid vesting account"@,
            CpAmmError::InvalidPoolStatus => "Invalid pool status"@,
            CpAmmError::UnsupportNativeMintToken2022 => "Unsupported native mint token2022"@,
            CpAmmError::RewardMintIsNotSupport => "Reward mint is not support"@,
            CpAmmError::InvalidRewardIndex => "Invalid reward index"@,
            CpAmmError::InvalidRewardDuration => "Invalid reward duration"@,
            CpAmmError::RewardInitialized => "Reward already initialized"@,
            CpAmmError::RewardUninitialized => "Reward not initialized"@,
            CpAmmError::InvalidRewardVault => "Invalid reward vault"@,
            CpAmmError::MustWithdrawnIneligibleReward => "Must withdraw ineligible reward"@,
            CpAmmError::WithdrawToWrongTokenAccount => "Withdraw to wrong token account"@,
            CpAmmError::IdenticalRewardDuration => "Reward duration is the same"@,
            CpAmmError::RewardCampaignInProgress => "Reward campaign in progress"@,
            CpAmmError::IdenticalFunder => "Identical funder"@,
            CpAmmError::InvalidFunder => "Invalid funder"@,
            CpAmmError::RewardNotEnded => "Reward not ended"@,
            CpAmmError::InvalidExtension => "Invalid extension"@,
            CpAmmError::FeeInverseIsIncorrect => "Fee inverse is incorrect"@,
        }
    }

    /// The numeric code of this kind.
    pub fn code(&self) -> (r: u32)
        ensures
            r == self.code_spec(),
            ERROR_CODE_BASE <= r <= ERROR_CODE_LAST,
    {
        match self {
            CpAmmError::MathOverflow => 6000,
            CpAmmError::InvalidFee => 6001,
            CpAmmError::InvalidInvariant => 6002,
            CpAmmError::FeeCalculationFailure => 6003,
            CpAmmError::ExceededSlippage => 6004,
            CpAmmError::InvalidCalculation => 6005,
            CpAmmError::ZeroTradingTokens => 6006,
            CpAmmError::ConversionError => 6007,
            CpAmmError::FaultyLpMint => 6008,
            CpAmmError::MismatchedTokenMint => 6009,
            CpAmmError::MismatchedLpMint => 6010,
            CpAmmError::MismatchedOwner => 6011,
            CpAmmError::InvalidVaultAccount => 6012,
            CpAmmError::InvalidVaultLpAccount => 6013,
            CpAmmError::InvalidPoolLpMintAccount => 6014,
            CpAmmError::PoolDisabled => 6015,
            CpAmmError::InvalidAdminAccount => 6016,
            CpAmmError::InvalidProtocolFeeAccount => 6017,
            CpAmmError::SameAdminAccount => 6018,
            CpAmmError::IdenticalSourceDestination => 6019,
            CpAmmError::ApyCalculationError => 6020,
            CpAmmError::InsufficientSnapshot => 6021,
            CpAmmError::NonUpdatableCurve => 6022,
            CpAmmError::MisMatchedCurve => 6023,
            CpAmmError::InvalidAmplification => 6024,
            CpAmmError::UnsupportedOperation => 6025,
            CpAmmError::ExceedMaxAChanges => 6026,
            CpAmmError::InvalidRemainingAccountsLen => 6027,
            CpAmmError::InvalidRemainingAccounts => 6028,
            CpAmmError::MismatchedDepegMint => 6029,
            CpAmmError::InvalidApyAccount => 6030,
            CpAmmError::InvalidTokenMultiplier => 6031,
            CpAmmError::InvalidDepegInformation => 6032,
            CpAmmError::UpdateTimeConstraint => 6033,
            CpAmmError::ExceedMaxFeeBps => 6034,
            CpAmmError::InvalidAdmin => 6035,
            CpAmmError::PoolIsNotPermissioned => 6036,
            CpAmmError::InvalidDepositAmount => 6037,
            CpAmmError::InvalidFeeOwner => 6038,
            CpAmmError::NonDepletedPool => 6039,
            CpAmmError::AmountNotPeg => 6040,
            CpAmmError::AmountIsZero => 6041,
            CpAmmError::TypeCastFailed => 6042,
            CpAmmError::AmountIsNotEnough => 6043,
            CpAmmError::InvalidActivationDuration => 6044,
            CpAmmError::PoolIsNotLaunchPool => 6045,
            CpAmmError::UnableToModifyActivationPoint => 6046,
            CpAmmError::InvalidAuthorityToCreateThePool => 6047,
            CpAmmError::InvalidActivationType => 6048,
            CpAmmError::InvalidActivationPoint => 6049,
            CpAmmError::PreActivationSwapStarted => 6050,
            CpAmmError::InvalidPoolType => 6051,
            CpAmmError::InvalidQuoteMint => 6052,
            CpAmmError::InvalidFeeCurve => 6053,
            CpAmmError::InvalidPriceRange => 6054,
            CpAmmError::PriceRangeViolation => 6055,
            CpAmmError::InvalidParameters => 6056,
            CpAmmError::InvalidCollectFeeMode => 6057,
            CpAmmError::InvalidInput => 6058,
            CpAmmError::CannotCreateTokenBadgeOnSupportedMint => 6059,
            CpAmmError::InvalidTokenBadge => 6060,
            CpAmmError::InvalidMinimumLiquidity => 6061,
            CpAmmError::InvalidPositionOwner => 6062,
            CpAmmError::InvalidVestingInfo => 6063,
            CpAmmError::InsufficientLiquidity => 6064,
            CpAmmError::InvalidVestingAccount => 6065,
            CpAmmError::InvalidPoolStatus => 6066,
            CpAmmError::UnsupportNativeMintToken2022 => 6067,
            CpAmmError::RewardMintIsNotSupport => 6068,
            CpAmmError::InvalidRewardIndex => 6069,
            CpAmmError::InvalidRewardDuration => 6070,
            CpAmmError::RewardInitialized => 6071,
            CpAmmError::RewardUninitialized => 6072,
            CpAmmError::InvalidRewardVault => 6073,
            CpAmmError::MustWithdrawnIneligibleReward => 6074,
            CpAmmError::WithdrawToWrongTokenAccount => 6075,
            CpAmmError::IdenticalRewardDuration => 6076,
            CpAmmError::RewardCampaignInProgress => 6077,
            CpAmmError::IdenticalFunder => 6078,
            CpAmmError::InvalidFunder => 6079,
            CpAmmError::RewardNotEnded => 6080,
            CpAmmError::InvalidExtension => 6081,
            CpAmmError::FeeInverseIsIncorrect => 6082,
        }
    }

    /// The kind that has the code `code`, if there is one.
    pub fn from_code(code: u32) -> (r: Option<CpAmmError>)
        ensures
            match r {
                Some(e) => e.code_spec() == code,
                None => code < ERROR_CODE_BASE || code > ERROR_CODE_LAST,
            },
    {
        match code {
            6000 => Some(CpAmmError::MathOverflow),
            6001 => Some(CpAmmError::InvalidFee),
            6002 => Some(CpAmmError::InvalidInvariant),
            6003 => Some(CpAmmError::FeeCalculationFailure),
            6004 => Some(CpAmmError::ExceededSlippage),
            6005 => Some(CpAmmError::InvalidCalculation),
            6006 => Some(CpAmmError::ZeroTradingTokens),
            6007 => Some(CpAmmError::ConversionError),
            6008 => Some(CpAmmError::FaultyLpMint),
            6009 => Some(CpAmmError::MismatchedTokenMint),
            6010 => Some(CpAmmError::MismatchedLpMint),
            6011 => Some(CpAmmError::MismatchedOwner),
            6012 => Some(CpAmmError::InvalidVaultAccount),
            6013 => Some(CpAmmError::InvalidVaultLpAccount),
            6014 => Some(CpAmmError::InvalidPoolLpMintAccount),
            6015 => Some(CpAmmError::PoolDisabled),
            6016 => Some(CpAmmError::InvalidAdminAccount),
            6017 => Some(CpAmmError::InvalidProtocolFeeAccount),
            6018 => Some(CpAmmError::SameAdminAccount),
            6019 => Some(CpAmmError::IdenticalSourceDestination),
            6020 => Some(CpAmmError::ApyCalculationError),
            6021 => Some(CpAmmError::InsufficientSnapshot),
            6022 => Some(CpAmmError::NonUpdatableCurve),
            6023 => Some(CpAmmError::MisMatchedCurve),
            6024 => Some(CpAmmError::InvalidAmplification),
            6025 => Some(CpAmmError::UnsupportedOperation),
            6026 => Some(CpAmmError::ExceedMaxAChanges),
            6027 => Some(CpAmmError::InvalidRemainingAccountsLen),
            6028 => Some(CpAmmError::InvalidRemainingAccounts),
            6029 => Some(CpAmmError::MismatchedDepegMint),
            6030 => Some(CpAmmError::InvalidApyAccount),
            6031 => Some(CpAmmError::InvalidTokenMultiplier),
            6032 => Some(CpAmmError::InvalidDepegInformation),
            6033 => Some(CpAmmError::UpdateTimeConstraint),
            6034 => Some(CpAmmError::ExceedMaxFeeBps),
            6035 => Some(CpAmmError::InvalidAdmin),
            6036 => Some(CpAmmError::PoolIsNotPermissioned),
            6037 => Some(CpAmmError::InvalidDepositAmount),
            6038 => Some(CpAmmError::InvalidFeeOwner),
            6039 => Some(CpAmmError::NonDepletedPool),
            6040 => Some(CpAmmError::AmountNotPeg),
            6041 => Some(CpAmmError::AmountIsZero),
            6042 => Some(CpAmmError::TypeCastFailed),
            6043 => Some(CpAmmError::AmountIsNotEnough),
            6044 => Some(CpAmmError::InvalidActivationDuration),
            6045 => Some(CpAmmError::PoolIsNotLaunchPool),
            6046 => Some(CpAmmError::UnableToModifyActivationPoint),
            6047 => Some(CpAmmError::InvalidAuthorityToCreateThePool),
            6048 => Some(CpAmmError::InvalidActivationType),
            6049 => Some(CpAmmError::InvalidActivationPoint),
            6050 => Some(CpAmmError::PreActivationSwapStarted),
            6051 => Some(CpAmmError::InvalidPoolType),
            6052 => Some(CpAmmError::InvalidQuoteMint),
            6053 => Some(CpAmmError::InvalidFeeCurve),
            6054 => Some(CpAmmError::InvalidPriceRange),
            6055 => Some(CpAmmError::PriceRangeViolation),
            6056 => Some(CpAmmError::InvalidParameters),
            6057 => Some(CpAmmError::InvalidCollectFeeMode),
            6058 => Some(CpAmmError::InvalidInput),
            6059 => Some(CpAmmError::CannotCreateTokenBadgeOnSupportedMint),
            6060 => Some(CpAmmError::InvalidTokenBadge),
            6061 => Some(CpAmmError::InvalidMinimumLiquidity),
            6062 => Some(CpAmmError::InvalidPositionOwner),
            6063 => Some(CpAmmError::InvalidVestingInfo),
            6064 => Some(CpAmmError::InsufficientLiquidity),
            6065 => Some(CpAmmError::InvalidVestingAccount),
            6066 => Some(CpAmmError::InvalidPoolStatus),
            6067 => Some(CpAmmError::UnsupportNativeMintToken2022),
            6068 => Some(CpAmmError::RewardMintIsNotSupport),
            6069 => Some(CpAmmError::InvalidRewardIndex),
            6070 => Some(CpAmmError::InvalidRewardDuration),
            6071 => Some(CpAmmError::RewardInitialized),
            6072 => Some(CpAmmError::RewardUninitialized),
            6073 => Some(CpAmmError::InvalidRewardVault),
            6074 => Some(CpAmmError::MustWithdrawnIneligibleReward),
            6075 => Some(CpAmmError::WithdrawToWrongTokenAccount),
            6076 => Some(CpAmmError::IdenticalRewardDuration),
            6077 => Some(CpAmmError::RewardCampaignInProgress),
            6078 => Some(CpAmmError::IdenticalFunder),
            6079 => Some(CpAmmError::InvalidFunder),
            6080 => Some(CpAmmError::RewardNotEnded),
            6081 => Some(CpAmmError::InvalidExtension),
            6082 => Some(CpAmmError::FeeInverseIsIncorrect),
            _ => None,
        }
    }

    /// The message of this kind.
    pub fn message(&self) -> (r: &'static str)
        ensures
            r@ == self.message_spec(),
    {
        match self {
            CpAmmError::MathOverflow => "Math operation overflow",
            CpAmmError::InvalidFee => "Invalid fee setup",
            CpAmmError::InvalidInvariant => "Invalid invariant d",
            CpAmmError::FeeCalculationFailure => "Fee calculation failure",
            CpAmmError::ExceededSlippage => "Exceeded slippage tolerance",
            CpAmmError::InvalidCalculation => "Invalid curve calculation",
            CpAmmError::ZeroTradingTokens => "Given pool token amount results in zero trading tokens",
            CpAmmError::ConversionError => "Math conversion overflow",
            CpAmmError::FaultyLpMint => "LP mint authority must be 'A' vault lp, without freeze authority, and 0 supply",
            CpAmmError::MismatchedTokenMint => "Token mint mismatched",
            CpAmmError::MismatchedLpMint => "LP mint mismatched",
            CpAmmError::MismatchedOwner => "Invalid lp token owner",
            CpAmmError::InvalidVaultAccount => "Invalid vault account",
            CpAmmError::InvalidVaultLpAccount => "Invalid vault lp account",
            CpAmmError::InvalidPoolLpMintAccount => "Invalid pool lp mint account",
            CpAmmError::PoolDisabled => "Pool disabled",
            CpAmmError::InvalidAdminAccount => "Invalid admin account",
            CpAmmError::InvalidProtocolFeeAccount => "Invalid protocol fee account",
            CpAmmError::SameAdminAccount => "Same admin account",
            CpAmmError::IdenticalSourceDestination => "Identical user source and destination token account",
            CpAmmError::ApyCalculationError => "Apy calculation error",
            CpAmmError::InsufficientSnapshot => "Insufficient virtual price snapshot",
            CpAmmError::NonUpdatableCurve => "Current curve is non-updatable",
            CpAmmError::MisMatchedCurve => "New curve is mismatched with old curve",
            CpAmmError::InvalidAmplification => "Amplification is invalid",
            CpAmmError::UnsupportedOperation => "Operation is not supported",
            CpAmmError::ExceedMaxAChanges => "Exceed max amplification changes",
            CpAmmError::InvalidRemainingAccountsLen => "Invalid remaining accounts length",
            CpAmmError::InvalidRemainingAccounts => "Invalid remaining account",
            CpAmmError::MismatchedDepegMint => "Token mint B doesn't matches depeg type token mint",
            CpAmmError::InvalidApyAccount => "Invalid APY account",
            CpAmmError::InvalidTokenMultiplier => "Invalid token multiplier",
            CpAmmError::InvalidDepegInformation => "Invalid depeg information",
            CpAmmError::UpdateTimeConstraint => "Update time constraint violated",
            CpAmmError::ExceedMaxFeeBps => "Exceeded max fee bps",
            CpAmmError::InvalidAdmin => "Invalid admin",
            CpAmmError::PoolIsNotPermissioned => "Pool is not permissioned",
            CpAmmError::InvalidDepositAmount => "Invalid deposit amount",
            CpAmmError::InvalidFeeOwner => "Invalid fee owner",
            CpAmmError::NonDepletedPool => "Pool is not depleted",
            CpAmmError::AmountNotPeg => "Token amount is not 1:1",
            CpAmmError::AmountIsZero => "Amount is zero",
            CpAmmError::TypeCastFailed => "Type cast error",
            CpAmmError::AmountIsNotEnough => "Amount is not enough",
            CpAmmError::InvalidActivationDuration => "Invalid activation duration",
            CpAmmError::PoolIsNotLaunchPool => "Pool is not launch pool",
            CpAmmError::UnableToModifyActivationPoint => "Unable to modify activation point",
            CpAmmError::InvalidAuthorityToCreateThePool => "Invalid authority to create the pool",
            CpAmmError::InvalidActivationType => "Invalid activation type",
            CpAmmError::InvalidActivationPoint => "Invalid activation point",
            CpAmmError::PreActivationSwapStarted => "Pre activation swap window started",
            CpAmmError::InvalidPoolType => "Invalid pool type",
            CpAmmError::InvalidQuoteMint => "Quote token must be SOL,USDC",
            CpAmmError::InvalidFeeCurve => "Invalid fee curve",
            CpAmmError::InvalidPriceRange => "Invalid Price Range",
            CpAmmError::PriceRangeViolation => "Trade is over price range",
            CpAmmError::InvalidParameters => "Invalid parameters",
            CpAmmError::InvalidCollectFeeMode => "Invalid collect fee mode",
            CpAmmError::InvalidInput => "Invalid input",
            CpAmmError::CannotCreateTokenBadgeOnSupportedMint => "Cannot create token badge on supported mint",
            CpAmmError::InvalidTokenBadge => "Invalid token badge",
            CpAmmError::InvalidMinimumLiquidity => "Invalid minimum liquidity",
            CpAmmError::InvalidPositionOwner => "Invalid position owner",
            CpAmmError::InvalidVestingInfo => "Invalid vesting information",
            CpAmmError::InsufficientLiquidity => "Insufficient liquidity",
            CpAmmError::InvalidVestingAccount => "Invalid vesting account",
            CpAmmError::InvalidPoolStatus => "Invalid pool status",
            CpAmmError::UnsupportNativeMintToken2022 => "Unsupported native mint token2022",
            CpAmmError::RewardMintIsNotSupport => "Reward mint is not support",
            CpAmmError::InvalidRewardIndex => "Invalid reward index",
            CpAmmError::InvalidRewardDuration => "Invalid reward duration",
            CpAmmError::RewardInitialized => "Reward already initialized",
            CpAmmError::RewardUninitialized => "Reward not initialized",
            CpAmmError::InvalidRewardVault => "Invalid reward vault",
            CpAmmError::MustWithdrawnIneligibleReward => "Must withdraw ineligible reward",
            CpAmmError::WithdrawToWrongTokenAccount => "Withdraw to wrong token account",
            CpAmmError::IdenticalRewardDuration => "Reward duration is the same",
            CpAmmError::RewardCampaignInProgress => "Reward campaign in progress",
            CpAmmError::IdenticalFunder => "Identical funder",
            CpAmmError::InvalidFunder => "Invalid funder",
            CpAmmError::RewardNotEnded => "Reward not ended",
            CpAmmError::InvalidExtension => "Invalid extension",
            CpAmmError::FeeInverseIsIncorrect => "Fee inverse is incorrect",
        }
    }

    /// Two kinds with the same code are the same kind.
    pub proof fn lemma_code_is_injective(a: CpAmmError, b: CpAmmError)
        requires
            a.code_spec() == b.code_spec(),
        ensures
            a == b,
    {
    }
}

} // verus!
