//! The reward-accrual engine: elapsed time, times a rate, over an interval.

use vstd::prelude::*;
use crate::errors::CustomError;

verus! {

/// The reward earned between `last_update_time` and `current_time` at `rate`
/// per `interval`, rounded toward zero. There is none when the clock ran
/// backwards, when the product of elapsed time and rate leaves the `u64` range,
/// or when the interval is zero.
pub open spec fn accrued(current_time: u64, last_update_time: u64, rate: u64, interval: u64) -> Option<u64> {
    if current_time < last_update_time {
        None
    } else if (current_time - last_update_time) * rate > u64::MAX {
        None
    } else if interval == 0 {
        None
    } else {
        Some((((current_time - last_update_time) * rate) / (interval as int)) as u64)
    }
}

/// Computes the reward earned since the last accrual.
pub fn rewards_accrued(current_time: u64, last_update_time: u64, rate: u64, interval: u64) -> (r: Result<u64, CustomError>)
    ensures
        match r {
            Ok(earned) => accrued(current_time, last_update_time, rate, interval) == Some(earned),
            Err(e) => e == CustomError::ArithmeticFault
                && accrued(current_time, last_update_time, rate, interval) is None,
        },
{
    let elapsed = match current_time.checked_sub(last_update_time) {
        Some(v) => v,
        None => { return Err(CustomError::ArithmeticFault); },
    };
    let product = match elapsed.checked_mul(rate) {
        Some(v) => v,
        None => { return Err(CustomError::ArithmeticFault); },
    };
    if interval == 0 {
        return Err(CustomError::ArithmeticFault);
    }
    Ok(product / interval)
}

/// With no time elapsed nothing is earned, whatever the rate.
pub proof fn lemma_nothing_accrues_in_no_time(time: u64, rate: u64, interval: u64)
    requires
        interval > 0,
    ensures
        accrued(time, time, rate, interval) == Some(0u64),
{
}

/// The reward never exceeds elapsed time times rate.
pub proof fn lemma_accrued_bounded(current_time: u64, last_update_time: u64, rate: u64, interval: u64)
    requires
        accrued(current_time, last_update_time, rate, interval) is Some,
    ensures
        accrued(current_time, last_update_time, rate, interval).unwrap() <= (current_time - last_update_time) * rate,
{
    let p = (current_time - last_update_time) * rate;
    assert(p >= 0) by (nonlinear_arith)
        requires p == (current_time - last_update_time) * rate, current_time >= last_update_time;
    assert(p / (interval as int) <= p) by (nonlinear_arith)
        requires p >= 0, interval > 0;
}

} // verus!
