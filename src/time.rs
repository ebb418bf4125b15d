//! Saturating time arithmetic on nanosecond instants and durations.
use vstd::prelude::*;

verus! {

/// Nanoseconds in one millisecond.
pub const NANOS_PER_MILLI: u64 = 1_000_000;

/// Nanoseconds in one second.
pub const NANOS_PER_SEC: u64 = 1_000_000_000;

/// Fixed-point unit of multipliers and probabilities: one million parts.
pub const PPM: u64 = 1_000_000;

/// Time elapsed from `earlier` to `later`, zero when `later` comes first.
pub open spec fn elapsed(later: int, earlier: int) -> int {
    if later >= earlier {
        later - earlier
    } else {
        0
    }
}

/// A derived stage duration is never negative, whatever order the two
/// instants come in: it is their difference, or zero when the later stage
/// was stamped first.
pub proof fn lemma_elapsed_never_negative(later: int, earlier: int)
    ensures
        elapsed(later, earlier) >= 0,
        later >= earlier ==> elapsed(later, earlier) == later - earlier,
        later < earlier ==> elapsed(later, earlier) == 0,
{
}

/// `later - earlier`, floored at zero.
pub fn saturating_since(later: u64, earlier: u64) -> (r: u64)
    ensures
        r == elapsed(later as int, earlier as int),
{
    later.saturating_sub(earlier)
}

/// Clamps a non-negative integer to the range of `u64`.
pub open spec fn clamp_u64(x: int) -> int {
    if x > u64::MAX {
        u64::MAX as int
    } else {
        x
    }
}

/// Narrows a `u128` to `u64`, saturating.
pub fn saturate_u64(x: u128) -> (r: u64)
    ensures
        r == clamp_u64(x as int),
{
    if x > u64::MAX as u128 {
        u64::MAX
    } else {
        x as u64
    }
}

/// The product of two `u64` values fits in a `u128`.
pub proof fn lemma_mul_fits_u128(a: u64, b: u64)
    ensures
        0 <= (a as int) * (b as int) <= u128::MAX,
{
    assert(0 <= (a as int) * (b as int) <= (u64::MAX as int) * (u64::MAX as int))
        by (nonlinear_arith);
}

/// Milliseconds as nanoseconds, saturating.
pub fn millis_to_nanos(ms: u64) -> (r: u64)
    ensures
        r == clamp_u64(ms * NANOS_PER_MILLI),
{
    proof {
        lemma_mul_fits_u128(ms, NANOS_PER_MILLI);
    }
    saturate_u64((ms as u128) * (NANOS_PER_MILLI as u128))
}

/// `a * b / PPM`, scaling `a` by a fixed-point multiplier.
pub open spec fn scale_ppm(a: int, mult: int) -> int {
    clamp_u64(a * mult / (PPM as int))
}

/// A scaled non-negative value is within the range of `u64`.
pub proof fn lemma_scale_ppm_bounds(a: int, mult: int)
    requires
        a >= 0,
        mult >= 0,
    ensures
        0 <= scale_ppm(a, mult) <= u64::MAX,
{
    assert(a * mult / (PPM as int) >= 0) by (nonlinear_arith)
        requires
            a >= 0,
            mult >= 0,
    ;
}

/// Scales `a` by the fixed-point multiplier `mult`, saturating.
pub fn scale_by_ppm(a: u64, mult: u64) -> (r: u64)
    ensures
        r == scale_ppm(a as int, mult as int),
{
    proof {
        lemma_mul_fits_u128(a, mult);
    }
    let p: u128 = (a as u128) * (mult as u128);
    saturate_u64(p / (PPM as u128))
}

/// A rate per second of `amount` units spread over `nanos` nanoseconds, zero
/// when no time has passed.
pub open spec fn per_second(amount: int, nanos: int) -> int {
    if nanos == 0 {
        0
    } else {
        clamp_u64(amount * (NANOS_PER_SEC as int) / nanos)
    }
}

/// Computes `per_second(amount, nanos)`.
pub fn rate_per_second(amount: u64, nanos: u64) -> (r: u64)
    ensures
        r == per_second(amount as int, nanos as int),
{
    if nanos == 0 {
        0
    } else {
        proof {
            lemma_mul_fits_u128(amount, NANOS_PER_SEC);
        }
        let p: u128 = (amount as u128) * (NANOS_PER_SEC as u128);
        saturate_u64(p / (nanos as u128))
    }
}

/// Frequency in millihertz of a period of `nanos`, the period floored at
/// `floor` nanoseconds.
pub open spec fn millihertz(nanos: int, floor: int) -> int {
    let p = if nanos < floor {
        floor
    } else {
        nanos
    };
    1_000_000_000_000int / p
}

/// Computes `millihertz(nanos, floor)`.
pub fn frequency_millihertz(nanos: u64, floor: u64) -> (r: u64)
    requires
        floor > 0,
    ensures
        r == millihertz(nanos as int, floor as int),
{
    let p: u64 = if nanos < floor {
        floor
    } else {
        nanos
    };
    proof {
        assert(1_000_000_000_000int / (p as int) <= 1_000_000_000_000int) by (nonlinear_arith)
            requires
                p >= 1,
        ;
    }
    1_000_000_000_000u64 / p
}

} // verus!
