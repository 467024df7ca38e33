//! Rates of change between two readings of a counter.

use vstd::prelude::*;

verus! {

/// Timestamps are in nanoseconds; rates are per second.
pub const NANOS_PER_SECOND: u64 = 1_000_000_000;

/// The change `delta_value` over `delta_time` nanoseconds, as a whole number
/// of units per second: the quotient is truncated, and a rate that does not
/// fit in 64 bits is reported as `u64::MAX`.
///
/// No time having passed, a change counts as an unbounded rate and no change
/// as a rate of zero.
pub open spec fn rate_per_second(delta_value: u64, delta_time: u64) -> u64 {
    if delta_time == 0 {
        if delta_value == 0 {
            0
        } else {
            u64::MAX
        }
    } else if delta_value * NANOS_PER_SECOND / (delta_time as int) > u64::MAX {
        u64::MAX
    } else {
        (delta_value * NANOS_PER_SECOND / (delta_time as int)) as u64
    }
}

/// Computes [`rate_per_second`].
pub fn rate(delta_value: u64, delta_time: u64) -> (r: u64)
    ensures
        r == rate_per_second(delta_value, delta_time),
{
    if delta_time == 0 {
        if delta_value == 0 {
            0
        } else {
            u64::MAX
        }
    } else {
        assert(delta_value * NANOS_PER_SECOND <= u64::MAX * NANOS_PER_SECOND) by (nonlinear_arith)
            requires
                delta_value <= u64::MAX,
                NANOS_PER_SECOND >= 0,
        ;
        let scaled: u128 = (delta_value as u128) * (NANOS_PER_SECOND as u128);
        let quotient: u128 = scaled / (delta_time as u128);
        if quotient > u64::MAX as u128 {
            u64::MAX
        } else {
            quotient as u64
        }
    }
}

} // verus!
