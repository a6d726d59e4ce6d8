//! Whole-number motion arithmetic shared by every moving thing.

use vstd::prelude::*;

verus! {

/// Largest magnitude of a configured length or position.
pub const LENGTH_LIMIT: i64 = 0x100_0000_0000;

/// Farthest from the middle of the screen that a moving thing may be put.
pub const POSITION_LIMIT: i64 = 0x10_0000_0000_0000;

/// Largest magnitude of a configured speed or acceleration.
pub const RATE_LIMIT: i64 = 0x4000_0000;

/// `v` brought into the range of a signed 64-bit number.
pub open spec fn saturated(v: int) -> int {
    if v < i64::MIN as int {
        i64::MIN as int
    } else if v > i64::MAX as int {
        i64::MAX as int
    } else {
        v
    }
}

/// `v` held between `lo` and `hi`; `lo` wins where the two cross.
pub open spec fn clamped(v: int, lo: int, hi: int) -> int {
    if v < lo {
        lo
    } else if v > hi {
        hi
    } else {
        v
    }
}

/// What a quantity changing at `rate` gains over `dt` time grains.
pub open spec fn gain(rate: int, dt: int) -> int {
    rate * dt
}

/// Brings a wide number into the 64-bit range.
pub fn saturate(v: i128) -> (r: i64)
    ensures
        r as int == saturated(v as int),
{
    if v < i64::MIN as i128 {
        i64::MIN
    } else if v > i64::MAX as i128 {
        i64::MAX
    } else {
        v as i64
    }
}

/// The product of a rate and a time step never leaves 96 bits.
proof fn lemma_gain_bounds(rate: int, dt: int)
    requires
        i64::MIN <= rate <= i64::MAX,
        0 <= dt <= u32::MAX,
    ensures
        -0x8000_0000_0000_0000_0000_0000 <= gain(rate, dt) <= 0x8000_0000_0000_0000_0000_0000,
{
    assert(-0x8000_0000_0000_0000_0000_0000 <= rate * dt <= 0x8000_0000_0000_0000_0000_0000)
        by (nonlinear_arith)
        requires
            -0x8000_0000_0000_0000 <= rate <= 0x7fff_ffff_ffff_ffff,
            0 <= dt <= 0xffff_ffff,
    ;
}

/// `rate * dt` as a wide number.
pub fn gain_of(rate: i64, dt: u32) -> (r: i128)
    ensures
        r as int == gain(rate as int, dt as int),
        -0x8000_0000_0000_0000_0000_0000 <= r <= 0x8000_0000_0000_0000_0000_0000,
        rate >= 0 ==> r >= 0,
        0 <= rate <= RATE_LIMIT ==> r <= 0x4000_0000_0000_0000,
{
    proof {
        lemma_gain_bounds(rate as int, dt as int);
        if rate >= 0 {
            assert(rate * dt >= 0) by (nonlinear_arith)
                requires
                    rate >= 0,
                    dt >= 0,
            ;
        }
        if 0 <= rate <= RATE_LIMIT {
            assert(rate * dt <= 0x4000_0000_0000_0000) by (nonlinear_arith)
                requires
                    0 <= rate <= 0x4000_0000,
                    0 <= dt <= 0xffff_ffff,
            ;
        }
    }
    (rate as i128) * (dt as i128)
}

} // verus!
