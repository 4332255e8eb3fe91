//! Marker traits for the fee parameters of a pool.

use crate::typedefs::{BaseFeeStruct, DynamicFeeStruct, PoolFeesStruct};
use vstd::prelude::*;

verus! {

/// Marks the base fee of a pool.
pub trait BaseFeeExtension {

}

impl BaseFeeExtension for BaseFeeStruct {

}

/// Marks the dynamic fee of a pool.
pub trait DynamicFeeExtension {

}

impl DynamicFeeExtension for DynamicFeeStruct {

}

/// Marks the fee parameters of a pool.
pub trait PoolFeesExtension {

}

impl PoolFeesExtension for PoolFeesStruct {

}

} // verus!
