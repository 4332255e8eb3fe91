//! Swap quotes for a constant-product pool with concentrated liquidity.
//!
//! The crate computes, from a snapshot of a pool, the output amount and the
//! fee split that a trade of a given input amount produces. All arithmetic is
//! fixed-point on unsigned integers and every function is verified against a
//! mathematical statement of its result.

pub mod conversions;
pub mod errors;
pub mod events;
pub mod extensions;
pub mod math;
pub mod quote;
pub mod typedefs;
