//! The accrual engine: how far the per-unit accumulator grows between two
//! instants. It reads the elapsed time and the exchange rate, and nothing of
//! the pool's total rate or of its participants.
use crate::error::SalaryError;
use crate::fixed::{fixed_div, precise_div, precise_new, unit, Fixed};
use vstd::prelude::*;

verus! {

/// Length of the day over which a daily rate is paid.
pub const SECONDS_PER_DAY: u128 = 86_400;

/// Raw growth of the accumulator over `elapsed` seconds: the settlement paid
/// to one unit of daily rate, `elapsed / SECONDS_PER_DAY / exchange_rate`,
/// each division rounded as the fixed-point layer rounds it.
pub open spec fn accrual(elapsed: nat, exchange_rate: nat) -> Option<nat> {
    match fixed_div(elapsed * unit(), (SECONDS_PER_DAY as nat) * unit()) {
        Some(per_unit) => fixed_div(per_unit, exchange_rate * unit()),
        None => None,
    }
}

/// Growth from `last` to `now`; going back in time is an underflow.
pub open spec fn accrual_since(last: int, now: int, exchange_rate: nat) -> Result<nat, SalaryError> {
    if now < last {
        Err(SalaryError::ArithmeticFault)
    } else {
        match accrual((now - last) as nat, exchange_rate) {
            Some(d) => Ok(d),
            None => Err(SalaryError::ArithmeticFault),
        }
    }
}

/// The raw value carried by a result.
pub open spec fn raw_result(r: Result<Fixed, SalaryError>) -> Result<nat, SalaryError> {
    match r {
        Ok(x) => Ok(x@),
        Err(e) => Err(e),
    }
}

/// The accumulator's growth from `last_updated_timestamp` to `now` at
/// `exchange_rate`.
pub fn calculate_accumulated_salary_per_share(
    last_updated_timestamp: i64,
    now: i64,
    exchange_rate: u128,
) -> (r: Result<Fixed, SalaryError>)
    ensures
        raw_result(r) == accrual_since(last_updated_timestamp as int, now as int, exchange_rate as nat),
{
    if now < last_updated_timestamp {
        return Err(SalaryError::ArithmeticFault);
    }
    let elapsed: u128 = (now as i128 - last_updated_timestamp as i128) as u128;
    let seconds = precise_new(elapsed).unwrap();
    let day = precise_new(SECONDS_PER_DAY).unwrap();
    let rate = precise_new(exchange_rate).unwrap();
    match precise_div(&seconds, &day) {
        None => Err(SalaryError::ArithmeticFault),
        Some(per_unit) => match precise_div(&per_unit, &rate) {
            None => Err(SalaryError::ArithmeticFault),
            Some(d) => Ok(d),
        },
    }
}

} // verus!
