//! The pool ledger: aggregate rate, exchange rate, and the accumulator that
//! every operation brings up to date before it reads it.
use crate::accrual::{accrual_since, calculate_accumulated_salary_per_share};
use crate::error::SalaryError;
use crate::fixed::{fixed_add, precise_add, Fixed};
use crate::identity::same_identity;
use vstd::prelude::*;

verus! {

/// The shared record of a salary pool.
#[derive(Clone, Copy, Debug)]
pub struct SalaryProgramSharedState {
    /// The administrator: may enrol participants and change the exchange rate.
    pub initializer_pubkey: [u8; 32],
    /// The custody account that holds the settlement asset.
    pub vault_account_pubkey: [u8; 32],
    /// Sum of the daily rates of all enrolled participants.
    pub total_salary: u128,
    /// Units of accrual per unit of settlement asset.
    pub exchange_rate: u128,
    /// Settlement asset paid so far to one unit of daily rate.
    pub accumulated_salary_per_share: Fixed,
    /// When the accumulator was last brought up to date.
    pub last_updated_timestamp: i64,
}

/// The pool ledger as mathematical values.
pub struct PoolModel {
    pub administrator: Seq<u8>,
    pub vault: Seq<u8>,
    pub total_rate: nat,
    pub exchange_rate: nat,
    /// Raw fixed-point value of the accumulator.
    pub accumulator: nat,
    pub last_sync: int,
}

impl View for SalaryProgramSharedState {
    type V = PoolModel;

    open spec fn view(&self) -> PoolModel {
        PoolModel {
            administrator: self.initializer_pubkey@,
            vault: self.vault_account_pubkey@,
            total_rate: self.total_salary as nat,
            exchange_rate: self.exchange_rate as nat,
            accumulator: self.accumulated_salary_per_share@,
            last_sync: self.last_updated_timestamp as int,
        }
    }
}

/// The model carried by a result.
pub open spec fn pool_result(r: Result<SalaryProgramSharedState, SalaryError>) -> Result<PoolModel, SalaryError> {
    match r {
        Ok(p) => Ok(p@),
        Err(e) => Err(e),
    }
}

/// The pool brought up to `now`: the accumulator grows by the accrual since
/// the last update, and the update time becomes `now`. At the same instant
/// nothing changes; an earlier instant, or a value that does not fit, is an
/// arithmetic fault.
pub open spec fn synced(p: PoolModel, now: int) -> Result<PoolModel, SalaryError> {
    if now == p.last_sync {
        Ok(p)
    } else {
        match accrual_since(p.last_sync, now, p.exchange_rate) {
            Err(e) => Err(e),
            Ok(d) => match fixed_add(p.accumulator, d) {
                None => Err(SalaryError::ArithmeticFault),
                Some(a) => Ok(PoolModel { accumulator: a, last_sync: now, ..p }),
            },
        }
    }
}

/// A ledger created at `now`: nothing enrolled, nothing accrued.
pub open spec fn initialized(
    already_initialized: bool,
    administrator: Seq<u8>,
    vault: Seq<u8>,
    exchange_rate: nat,
    now: int,
) -> Result<PoolModel, SalaryError> {
    if already_initialized {
        Err(SalaryError::AlreadyInitialized)
    } else {
        Ok(PoolModel {
            administrator,
            vault,
            total_rate: 0,
            exchange_rate,
            accumulator: 0,
            last_sync: now,
        })
    }
}

/// The administrator's change of exchange rate: accrual up to `now` is kept
/// at the old rate, and the new one applies from `now` on.
pub open spec fn rate_updated(p: PoolModel, caller: Seq<u8>, exchange_rate: nat, now: int) -> Result<PoolModel, SalaryError> {
    if caller != p.administrator {
        Err(SalaryError::Unauthorized)
    } else {
        match synced(p, now) {
            Err(e) => Err(e),
            Ok(q) => Ok(PoolModel { exchange_rate, ..q }),
        }
    }
}

/// Neither the accumulator nor the update time has gone back.
pub open spec fn advances(before: PoolModel, after: PoolModel) -> bool {
    before.accumulator <= after.accumulator && before.last_sync <= after.last_sync
}

impl SalaryProgramSharedState {
    /// The pool with its accumulator brought up to `now`.
    pub fn sync(&self, now: i64) -> (r: Result<SalaryProgramSharedState, SalaryError>)
        ensures
            pool_result(r) == synced(self@, now as int),
            r matches Ok(p) ==> advances(self@, p@),
    {
        if now == self.last_updated_timestamp {
            return Ok(*self);
        }
        let delta = match calculate_accumulated_salary_per_share(self.last_updated_timestamp, now, self.exchange_rate) {
            Err(e) => return Err(e),
            Ok(d) => d,
        };
        match precise_add(&self.accumulated_salary_per_share, &delta) {
            None => Err(SalaryError::ArithmeticFault),
            Some(a) => Ok(SalaryProgramSharedState {
                accumulated_salary_per_share: a,
                last_updated_timestamp: now,
                ..*self
            }),
        }
    }
}

/// Creates the ledger of a pool; refused where one exists already.
pub fn initialize(
    already_initialized: bool,
    initializer: [u8; 32],
    vault_account: [u8; 32],
    exchange_rate: u128,
    now: i64,
) -> (r: Result<SalaryProgramSharedState, SalaryError>)
    ensures
        pool_result(r) == initialized(already_initialized, initializer@, vault_account@, exchange_rate as nat, now as int),
{
    if already_initialized {
        return Err(SalaryError::AlreadyInitialized);
    }
    Ok(SalaryProgramSharedState {
        initializer_pubkey: initializer,
        vault_account_pubkey: vault_account,
        total_salary: 0,
        exchange_rate,
        accumulated_salary_per_share: Fixed::zero(),
        last_updated_timestamp: now,
    })
}

/// Sets a new exchange rate, after freezing the accrual under the old one.
pub fn update_exchange_rate(
    state: &SalaryProgramSharedState,
    caller: &[u8; 32],
    exchange_rate: u128,
    now: i64,
) -> (r: Result<SalaryProgramSharedState, SalaryError>)
    ensures
        pool_result(r) == rate_updated(state@, caller@, exchange_rate as nat, now as int),
        r matches Ok(p) ==> advances(state@, p@),
{
    if !same_identity(caller, &state.initializer_pubkey) {
        return Err(SalaryError::Unauthorized);
    }
    match state.sync(now) {
        Err(e) => Err(e),
        Ok(p) => Ok(SalaryProgramSharedState { exchange_rate, ..p }),
    }
}

} // verus!
