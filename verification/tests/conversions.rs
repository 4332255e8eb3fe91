use cp_amm_client::conversions::activation_type::ActivationTypeWrapper;
use cp_amm_client::conversions::collect_fee_mode::CollectFeeModeWrapper;
use cp_amm_client::errors::CpAmmError;
use cp_amm_client::typedefs::{ActivationType, CollectFeeMode};

#[test]
fn collect_fee_mode_from_byte() {
    assert_eq!(*CollectFeeModeWrapper::try_from(0u8).unwrap(), CollectFeeMode::BothToken);
    assert_eq!(*CollectFeeModeWrapper::try_from(1u8).unwrap(), CollectFeeMode::OnlyB);
}

#[test]
fn collect_fee_mode_from_another_byte_fails() {
    for byte in [2u8, 3, 128, 255] {
        assert_eq!(
            CollectFeeModeWrapper::try_from(byte).err(),
            Some(CpAmmError::InvalidCollectFeeMode)
        );
    }
}

#[test]
fn activation_type_from_byte() {
    assert_eq!(*ActivationTypeWrapper::try_from(0u8).unwrap(), ActivationType::Slot);
    assert_eq!(*ActivationTypeWrapper::try_from(1u8).unwrap(), ActivationType::Timestamp);
}

#[test]
fn activation_type_from_another_byte_fails() {
    for byte in [2u8, 3, 128, 255] {
        assert_eq!(
            ActivationTypeWrapper::try_from(byte).err(),
            Some(CpAmmError::InvalidActivationType)
        );
    }
}
