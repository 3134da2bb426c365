//! Turning the ticks of a performance counter into microseconds.

use vstd::prelude::*;

verus! {

/// The quotient of `a` by `b`, rounded towards zero.
pub open spec fn quotient(a: int, b: int) -> int {
    if a >= 0 {
        if b > 0 {
            a / b
        } else {
            -(a / (-b))
        }
    } else {
        if b > 0 {
            -((-a) / b)
        } else {
            (-a) / (-b)
        }
    }
}

/// The microseconds that `ticks` ticks make at `freq` ticks a second,
/// rounded towards zero.
pub open spec fn microseconds(ticks: int, freq: int) -> int {
    quotient(ticks * 1_000_000, freq)
}

/// Whether `v` can be held in an `i64`.
pub open spec fn fits_i64(v: int) -> bool {
    i64::MIN <= v <= i64::MAX
}

/// The time stamp in microseconds of a counter that stands at
/// `current_ticks` and runs at `perf_counter_freq` ticks a second.
pub fn get_microsec_timestamp(perf_counter_freq: i64, current_ticks: i64) -> (stamp: i64)
    requires
        perf_counter_freq != 0,
        fits_i64(microseconds(current_ticks as int, perf_counter_freq as int)),
    ensures
        stamp == microseconds(current_ticks as int, perf_counter_freq as int),
{
    let perf_counter_freq: i128 = perf_counter_freq as i128;
    let ticks_scaled_by_megahz: i128 = current_ticks as i128 * 1_000_000;
    // a quotient keeps its value when both sides change their sign
    let microsec_ticks: i128 = if perf_counter_freq < 0 {
        (-ticks_scaled_by_megahz) / (-perf_counter_freq)
    } else {
        ticks_scaled_by_megahz / perf_counter_freq
    };
    microsec_ticks as i64
}

/// The time stamp as `get_microsec_timestamp` gives it, or `None` where
/// the counter does not run or the time stamp does not fit.
pub fn checked_microsec_timestamp(perf_counter_freq: i64, current_ticks: i64) -> (stamp: Option<
    i64,
>)
    ensures
        stamp == if perf_counter_freq != 0 && fits_i64(
            microseconds(current_ticks as int, perf_counter_freq as int),
        ) {
            Some(microseconds(current_ticks as int, perf_counter_freq as int) as i64)
        } else {
            None
        },
{
    if perf_counter_freq == 0 {
        return None;
    }
    let scaled: i128 = current_ticks as i128 * 1_000_000;
    let result: i128 = if perf_counter_freq < 0 {
        (-scaled) / (-(perf_counter_freq as i128))
    } else {
        scaled / (perf_counter_freq as i128)
    };
    if result > 0x7fff_ffff_ffff_ffff || result < -0x8000_0000_0000_0000 {
        return None;
    }
    Some(get_microsec_timestamp(perf_counter_freq, current_ticks))
}

} // verus!
