//! Fixed-point arithmetic: wide integers, the price curve and the fee.

pub mod curve;
pub mod fee;
pub mod lemmas;
pub mod wide;

pub use curve::{
    get_delta_amount_a_unsigned, get_delta_amount_a_unsigned_unchecked,
    get_delta_amount_b_unsigned, get_delta_amount_b_unsigned_unchecked, get_initialize_amounts,
    get_next_sqrt_price_from_amount_a_rounding_up, get_next_sqrt_price_from_amount_b_rounding_down,
    get_next_sqrt_price_from_input, RESOLUTION,
};
pub use wide::{mul_div_u256, safe_mul_div_cast_u64, Rounding, U256, U512};
