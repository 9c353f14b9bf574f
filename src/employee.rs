//! Participant records: enrolment sets a participant's baseline so that it
//! starts with nothing to claim; a claim pays the whole units accrued since.
use crate::error::SalaryError;
use crate::fixed::{
    fixed_mul, half_unit, precise_add, precise_floor, precise_le, precise_mul, precise_new,
    precise_sub, precise_to_imprecise, unit, Fixed,
};
use crate::identity::same_identity;
use crate::pool::{advances, synced, PoolModel, SalaryProgramSharedState};
use vstd::prelude::*;

verus! {

/// One participant's record.
#[derive(Clone, Copy, Debug)]
pub struct EmployeeSalaryState {
    /// The custody account of the pool that pays this participant.
    pub salary_vault_account_pubkey: [u8; 32],
    /// The participant: the only caller that may claim.
    pub employee_pubkey: [u8; 32],
    /// Where claimed funds are sent.
    pub employee_token_account_pubkey: [u8; 32],
    /// Daily rate, fixed at enrolment.
    pub salary_rate_thb: u128,
    /// Value already accounted for against the accumulator.
    pub salary_debt: Fixed,
    /// When the participant was enrolled or last claimed.
    pub last_claimed_timestamp: i64,
}

/// A participant record as mathematical values.
pub struct RecordModel {
    pub vault: Seq<u8>,
    pub owner: Seq<u8>,
    pub payout: Seq<u8>,
    pub rate: nat,
    /// Raw fixed-point value of the debt.
    pub debt: nat,
    pub last_touch: int,
}

impl View for EmployeeSalaryState {
    type V = RecordModel;

    open spec fn view(&self) -> RecordModel {
        RecordModel {
            vault: self.salary_vault_account_pubkey@,
            owner: self.employee_pubkey@,
            payout: self.employee_token_account_pubkey@,
            rate: self.salary_rate_thb as nat,
            debt: self.salary_debt@,
            last_touch: self.last_claimed_timestamp as int,
        }
    }
}

/// Raw value of `rate × accumulator`: what a participant has earned since
/// genesis, were it enrolled from the start.
pub open spec fn gross(rate: nat, accumulator: nat) -> Option<nat> {
    fixed_mul(rate * unit(), accumulator)
}

/// Raw value that a participant may claim against the pool as it stands:
/// `rate × accumulator − debt`, negative where the debt is too large.
pub open spec fn claimable(p: PoolModel, r: RecordModel) -> Option<int> {
    match gross(r.rate, p.accumulator) {
        Some(g) => Some(g - r.debt),
        None => None,
    }
}

/// Enrolment by the administrator at `now`: the pool is brought up to date,
/// its total rate grows by `rate`, and the new record's debt is
/// `rate × accumulator`, so that it starts with nothing to claim.
pub open spec fn enrolled(
    p: PoolModel,
    caller: Seq<u8>,
    employee: Seq<u8>,
    payout: Seq<u8>,
    rate: nat,
    now: int,
) -> Result<(PoolModel, RecordModel), SalaryError> {
    if caller != p.administrator {
        Err(SalaryError::Unauthorized)
    } else {
        match synced(p, now) {
            Err(e) => Err(e),
            Ok(q) => if q.total_rate + rate > u128::MAX {
                Err(SalaryError::ArithmeticFault)
            } else {
                match gross(rate, q.accumulator) {
                    None => Err(SalaryError::ArithmeticFault),
                    Some(debt) => Ok((
                        PoolModel { total_rate: q.total_rate + rate, ..q },
                        RecordModel { vault: q.vault, owner: employee, payout, rate, debt, last_touch: now },
                    )),
                }
            },
        }
    }
}

/// A claim by the participant at `now`: the pool is brought up to date, the
/// whole units of `rate × accumulator − debt` are paid, and the debt grows by
/// exactly what was paid, so that the fraction waits for the next claim. A
/// negative claimable value is an accounting fault, and a payment beyond
/// `u64` an arithmetic fault.
pub open spec fn claimed(p: PoolModel, r: RecordModel, caller: Seq<u8>, now: int) -> Result<
    (PoolModel, RecordModel, nat),
    SalaryError,
> {
    if caller != r.owner {
        Err(SalaryError::Unauthorized)
    } else {
        match synced(p, now) {
            Err(e) => Err(e),
            Ok(q) => match gross(r.rate, q.accumulator) {
                None => Err(SalaryError::ArithmeticFault),
                Some(g) => if g < r.debt {
                    Err(SalaryError::AccountingFault)
                } else {
                    let amount = ((g - r.debt) as nat) / unit();
                    if amount > u64::MAX {
                        Err(SalaryError::ArithmeticFault)
                    } else {
                        Ok((q, RecordModel { debt: r.debt + amount * unit(), last_touch: now, ..r }, amount))
                    }
                },
            },
        }
    }
}

/// The models carried by an enrolment's result.
pub open spec fn enrol_result(r: Result<(SalaryProgramSharedState, EmployeeSalaryState), SalaryError>) -> Result<
    (PoolModel, RecordModel),
    SalaryError,
> {
    match r {
        Ok((p, e)) => Ok((p@, e@)),
        Err(e) => Err(e),
    }
}

/// The models carried by a claim's result.
pub open spec fn claim_result(r: Result<(SalaryProgramSharedState, EmployeeSalaryState, u64), SalaryError>) -> Result<
    (PoolModel, RecordModel, nat),
    SalaryError,
> {
    match r {
        Ok((p, e, a)) => Ok((p@, e@, a as nat)),
        Err(e) => Err(e),
    }
}

/// Whole units of `c`, in their two raw forms.
pub proof fn lemma_whole_units(c: nat)
    ensures
        (c / unit()) * unit() <= c,
        c - (c / unit()) * unit() < unit(),
        ((c / unit()) * unit() <= (u64::MAX as nat) * unit()) == (c / unit() <= u64::MAX),
        ((c / unit()) * unit() + half_unit()) / unit() == c / unit(),
{
    let k = c / unit();
    let m = u64::MAX as nat;
    assert(unit() == 1_000_000_000_000nat);
    assert(half_unit() == 500_000_000_000nat);
    assert(k * unit() <= c && c - k * unit() < unit()) by (nonlinear_arith)
        requires
            k == c / unit(),
            unit() == 1_000_000_000_000nat,
    ;
    assert((k * unit() <= m * unit()) == (k <= m)) by (nonlinear_arith)
        requires
            unit() == 1_000_000_000_000nat,
    ;
    assert((k * unit() + half_unit()) / unit() == k) by (nonlinear_arith)
        requires
            unit() == 1_000_000_000_000nat,
            half_unit() == 500_000_000_000nat,
    ;
}

/// Enrols a participant with a daily `salary_rate_thb`; only the pool's
/// administrator may.
pub fn add_employee(
    state: &SalaryProgramSharedState,
    adder: &[u8; 32],
    employee: [u8; 32],
    employee_token_account: [u8; 32],
    salary_rate_thb: u128,
    now: i64,
) -> (r: Result<(SalaryProgramSharedState, EmployeeSalaryState), SalaryError>)
    ensures
        enrol_result(r) == enrolled(state@, adder@, employee@, employee_token_account@, salary_rate_thb as nat, now as int),
        r matches Ok((p, _)) ==> advances(state@, p@),
{
    if !same_identity(adder, &state.initializer_pubkey) {
        return Err(SalaryError::Unauthorized);
    }
    let pool = match state.sync(now) {
        Err(e) => return Err(e),
        Ok(p) => p,
    };
    if pool.total_salary > u128::MAX - salary_rate_thb {
        return Err(SalaryError::ArithmeticFault);
    }
    let rate = precise_new(salary_rate_thb).unwrap();
    let debt = match precise_mul(&rate, &pool.accumulated_salary_per_share) {
        None => return Err(SalaryError::ArithmeticFault),
        Some(d) => d,
    };
    let record = EmployeeSalaryState {
        salary_vault_account_pubkey: pool.vault_account_pubkey,
        employee_pubkey: employee,
        employee_token_account_pubkey: employee_token_account,
        salary_rate_thb,
        salary_debt: debt,
        last_claimed_timestamp: now,
    };
    Ok((SalaryProgramSharedState { total_salary: pool.total_salary + salary_rate_thb, ..pool }, record))
}

/// Pays the participant what has accrued since its enrolment or last claim,
/// in whole units; only the participant may claim.
pub fn claim_salary(
    state: &SalaryProgramSharedState,
    employee_state: &EmployeeSalaryState,
    claimer: &[u8; 32],
    now: i64,
) -> (r: Result<(SalaryProgramSharedState, EmployeeSalaryState, u64), SalaryError>)
    ensures
        claim_result(r) == claimed(state@, employee_state@, claimer@, now as int),
        r matches Ok((p, _, _)) ==> advances(state@, p@),
{
    if !same_identity(claimer, &employee_state.employee_pubkey) {
        return Err(SalaryError::Unauthorized);
    }
    let pool = match state.sync(now) {
        Err(e) => return Err(e),
        Ok(p) => p,
    };
    let rate = precise_new(employee_state.salary_rate_thb).unwrap();
    let gross = match precise_mul(&rate, &pool.accumulated_salary_per_share) {
        None => return Err(SalaryError::ArithmeticFault),
        Some(g) => g,
    };
    let claimable = match precise_sub(&gross, &employee_state.salary_debt) {
        None => return Err(SalaryError::AccountingFault),
        Some(c) => c,
    };
    proof {
        lemma_whole_units(claimable@);
    }
    let whole = precise_floor(&claimable).unwrap();
    let cap = precise_new(u64::MAX as u128).unwrap();
    if !precise_le(&whole, &cap) {
        return Err(SalaryError::ArithmeticFault);
    }
    let amount = precise_to_imprecise(&whole).unwrap();
    let debt = precise_add(&employee_state.salary_debt, &whole).unwrap();
    let record = EmployeeSalaryState {
        salary_debt: debt,
        last_claimed_timestamp: now,
        ..*employee_state
    };
    Ok((pool, record, amount as u64))
}

} // verus!
