//! What a pool snapshot and its fee parameters can do beyond holding data.

pub mod fee;
pub mod pool;

pub use fee::{BaseFeeExtension, DynamicFeeExtension, PoolFeesExtension};
pub use pool::PoolExtension;
