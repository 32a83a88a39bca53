//! Units of measure and the saturating arithmetic shared by the camera types.
//!
//! * A heading component is a count of millionths: `HEADING_ONE` stands for 1.
//! * A speed or a sensitivity is a count of millionths per second.
//! * A time step is a count of microseconds.
//! * A length is a count of `10^-18` world units, the product of the three above.
//! * An angle is a count of `10^-12` degrees: pointer counts times sensitivity times time.

use vstd::prelude::*;

verus! {

/// The heading component that stands for 1.
pub const HEADING_ONE: i32 = 1_000_000;

/// The squared length of a heading that stands for 1.
pub const HEADING_ONE_SQUARED: i64 = 1_000_000_000_000;

/// How far the squared length of a heading may lie from `HEADING_ONE_SQUARED`: what
/// rounding each component of a unit vector to a whole millionth can cost.
pub const HEADING_SLACK: i64 = 2_000_000;

/// The speed or sensitivity that stands for 1 per second.
pub const RATE_ONE: u32 = 1_000_000;

/// The time step of one second.
pub const SECOND: u32 = 1_000_000;

/// The length of one world unit.
pub const LENGTH_ONE: i128 = 1_000_000_000_000_000_000;

/// The angle of one degree.
pub const DEGREE: i128 = 1_000_000_000_000;

/// The steepest pitch, up or down, that a camera may have: 89 degrees.
pub const PITCH_LIMIT: i128 = 89_000_000_000_000;

/// `value` brought into the interval from `low` to `high`.
pub open spec fn clamp(value: int, low: int, high: int) -> int {
    if value < low {
        low
    } else if value > high {
        high
    } else {
        value
    }
}

/// `value` brought into the range of `i32`.
pub open spec fn saturate_i32(value: int) -> int {
    clamp(value, i32::MIN as int, i32::MAX as int)
}

/// `value` brought into the range of `i128`.
pub open spec fn saturate_i128(value: int) -> int {
    clamp(value, i128::MIN as int, i128::MAX as int)
}

/// The sum of two `i32` counts, held at the ends of the range of `i32`.
pub fn add_saturating_i32(base: i32, delta: i32) -> (sum: i32)
    ensures
        sum == saturate_i32(base + delta),
{
    let wide: i64 = base as i64 + delta as i64;
    if wide > i32::MAX as i64 {
        i32::MAX
    } else if wide < i32::MIN as i64 {
        i32::MIN
    } else {
        wide as i32
    }
}

/// The sum of two `i128` quantities, held at the ends of the range of `i128`.
pub fn add_saturating_i128(base: i128, delta: i128) -> (sum: i128)
    ensures
        sum == saturate_i128(base + delta),
{
    if delta >= 0 {
        if base > i128::MAX - delta {
            i128::MAX
        } else {
            base + delta
        }
    } else {
        if base < i128::MIN - delta {
            i128::MIN
        } else {
            base + delta
        }
    }
}

/// The time step for a frame that took `micros` microseconds. A frame longer
/// than `u32::MAX` microseconds counts as one of `u32::MAX`.
pub fn time_step(micros: u128) -> (dt: u32)
    ensures
        dt == clamp(micros as int, 0, u32::MAX as int),
{
    if micros > u32::MAX as u128 {
        u32::MAX
    } else {
        micros as u32
    }
}

/// The largest magnitude of an `amount` that `scaled` accepts: `2^52`.
pub const AMOUNT_LIMIT: i64 = 0x10_0000_0000_0000;

/// The product `amount * rate * dt` of an amount, a rate per second and a time step.
pub open spec fn scale(amount: int, rate: int, dt: int) -> int {
    amount * rate * dt
}

/// The product `amount * rate * dt`, computed exactly.
pub fn scaled(amount: i64, rate: u32, dt: u32) -> (product: i128)
    requires
        -AMOUNT_LIMIT <= amount <= AMOUNT_LIMIT,
    ensures
        product == scale(amount as int, rate as int, dt as int),
        -0x10_0000_0000_0000_0000_0000_0000_0000 <= product <= 0x10_0000_0000_0000_0000_0000_0000_0000,
{
    proof {
        let a: int = amount as int;
        let r: int = rate as int;
        let t: int = dt as int;
        assert(0 <= r * t <= 0x1_0000_0000 * 0x1_0000_0000) by (nonlinear_arith)
            requires
                0 <= r < 0x1_0000_0000,
                0 <= t < 0x1_0000_0000,
        ;
        assert(-0x10_0000_0000_0000 * 0x1_0000_0000_0000_0000 <= a * (r * t)
            <= 0x10_0000_0000_0000 * 0x1_0000_0000_0000_0000) by (nonlinear_arith)
            requires
                -0x10_0000_0000_0000 <= a <= 0x10_0000_0000_0000,
                0 <= r * t <= 0x1_0000_0000_0000_0000,
        ;
        assert(a * (r * t) == a * r * t) by (nonlinear_arith);
    }
    let per_amount: i128 = rate as i128 * dt as i128;
    amount as i128 * per_amount
}

} // verus!
