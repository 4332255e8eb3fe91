//! The fee mode of a pool, read from its byte.

use crate::errors::CpAmmError;
use crate::typedefs::CollectFeeMode;
use vstd::prelude::*;
use vstd::std_specs::convert::TryFromSpecImpl;

verus! {

/// The fee mode that the byte `value` stands for: 0 for both tokens, 1 for
/// token B only.
pub open spec fn collect_fee_mode_of_byte(value: u8) -> Option<CollectFeeMode> {
    if value == 0 {
        Some(CollectFeeMode::BothToken)
    } else if value == 1 {
        Some(CollectFeeMode::OnlyB)
    } else {
        None
    }
}

/// A fee mode that was read from a byte.
#[derive(Debug)]
pub struct CollectFeeModeWrapper(CollectFeeMode);

impl View for CollectFeeModeWrapper {
    type V = CollectFeeMode;

    closed spec fn view(&self) -> CollectFeeMode {
        self.0
    }
}

impl core::ops::Deref for CollectFeeModeWrapper {
    type Target = CollectFeeMode;

    fn deref(&self) -> (r: &CollectFeeMode)
        ensures
            *r == self@,
    {
        &self.0
    }
}

impl TryFrom<u8> for CollectFeeModeWrapper {
    type Error = CpAmmError;

    /// Reads a fee mode from its byte. Fails with `InvalidCollectFeeMode` on
    /// a byte that stands for none.
    fn try_from(value: u8) -> (r: Result<Self, CpAmmError>)
        ensures
            match (collect_fee_mode_of_byte(value), r) {
                (Some(mode), Ok(wrapper)) => wrapper@ == mode,
                (None, Err(e)) => e == CpAmmError::InvalidCollectFeeMode,
                _ => false,
            },
    {
        match value {
            0 => Ok(CollectFeeModeWrapper(CollectFeeMode::BothToken)),
            1 => Ok(CollectFeeModeWrapper(CollectFeeMode::OnlyB)),
            _ => Err(CpAmmError::InvalidCollectFeeMode),
        }
    }
}

impl TryFromSpecImpl<u8> for CollectFeeModeWrapper {
    open spec fn obeys_try_from_spec() -> bool {
        true
    }

    closed spec fn try_from_spec(value: u8) -> Result<Self, CpAmmError> {
        match collect_fee_mode_of_byte(value) {
            Some(mode) => Ok(CollectFeeModeWrapper(mode)),
            None => Err(CpAmmError::InvalidCollectFeeMode),
        }
    }
}

} // verus!
