//! The time axis of a pool, read from its byte.

use crate::errors::CpAmmError;
use crate::typedefs::ActivationType;
use vstd::prelude::*;
use vstd::std_specs::convert::TryFromSpecImpl;

verus! {

/// The activation type that the byte `value` stands for: 0 for slots, 1 for
/// timestamps.
pub open spec fn activation_type_of_byte(value: u8) -> Option<ActivationType> {
    if value == 0 {
        Some(ActivationType::Slot)
    } else if value == 1 {
        Some(ActivationType::Timestamp)
    } else {
        None
    }
}

/// An activation type that was read from a byte.
#[derive(Debug)]
pub struct ActivationTypeWrapper(ActivationType);

impl View for ActivationTypeWrapper {
    type V = ActivationType;

    closed spec fn view(&self) -> ActivationType {
        self.0
    }
}

impl core::ops::Deref for ActivationTypeWrapper {
    type Target = ActivationType;

    fn deref(&self) -> (r: &ActivationType)
        ensures
            *r == self@,
    {
        &self.0
    }
}

impl TryFrom<u8> for ActivationTypeWrapper {
    type Error = CpAmmError;

    /// Reads an activation type from its byte. Fails with `InvalidActivationType` on
    /// a byte that stands for none.
    fn try_from(value: u8) -> (r: Result<Self, CpAmmError>)
        ensures
            match (activation_type_of_byte(value), r) {
                (Some(mode), Ok(wrapper)) => wrapper@ == mode,
                (None, Err(e)) => e == CpAmmError::InvalidActivationType,
                _ => false,
            },
    {
        match value {
            0 => Ok(ActivationTypeWrapper(ActivationType::Slot)),
            1 => Ok(ActivationTypeWrapper(ActivationType::Timestamp)),
            _ => Err(CpAmmError::InvalidActivationType),
        }
    }
}

impl TryFromSpecImpl<u8> for ActivationTypeWrapper {
    open spec fn obeys_try_from_spec() -> bool {
        true
    }

    closed spec fn try_from_spec(value: u8) -> Result<Self, CpAmmError> {
        match activation_type_of_byte(value) {
            Some(mode) => Ok(ActivationTypeWrapper(mode)),
            None => Err(CpAmmError::InvalidActivationType),
        }
    }
}

} // verus!
