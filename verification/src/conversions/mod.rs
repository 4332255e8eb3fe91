//! The enumerations that a pool stores as a byte, read back from the byte.

pub mod activation_type;
pub mod collect_fee_mode;

pub use activation_type::ActivationTypeWrapper;
pub use collect_fee_mode::CollectFeeModeWrapper;
