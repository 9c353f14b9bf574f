use anchor_lang::prelude::Pubkey;
use realtime_salary::accrual::calculate_accumulated_salary_per_share;
use realtime_salary::authority::{derive_authority, SALARY_VAULT_PDA_SEED};
use realtime_salary::employee::{add_employee, claim_salary, EmployeeSalaryState};
use realtime_salary::error::SalaryError;
use realtime_salary::fixed::{Fixed, ONE};
use realtime_salary::pool::{initialize, update_exchange_rate, SalaryProgramSharedState};

const ADMIN: [u8; 32] = [1; 32];
const VAULT: [u8; 32] = [2; 32];
const ALICE: [u8; 32] = [3; 32];
const ALICE_TOKENS: [u8; 32] = [4; 32];
const BOB: [u8; 32] = [5; 32];
const BOB_TOKENS: [u8; 32] = [6; 32];

fn fixed(raw: u128) -> Fixed {
    Fixed { w0: raw as u64, w1: (raw >> 64) as u64, w2: 0, w3: 0 }
}

fn raw(f: &Fixed) -> u128 {
    assert_eq!((f.w2, f.w3), (0, 0));
    ((f.w1 as u128) << 64) | f.w0 as u128
}

fn pool_at(now: i64, exchange_rate: u128) -> SalaryProgramSharedState {
    initialize(false, ADMIN, VAULT, exchange_rate, now).unwrap()
}

fn enrol(pool: &SalaryProgramSharedState, who: [u8; 32], tokens: [u8; 32], rate: u128, now: i64) -> (SalaryProgramSharedState, EmployeeSalaryState) {
    add_employee(pool, &ADMIN, who, tokens, rate, now).unwrap()
}

#[test]
fn initialize_starts_empty() {
    let pool = pool_at(7, 3);
    assert_eq!(pool.initializer_pubkey, ADMIN);
    assert_eq!(pool.vault_account_pubkey, VAULT);
    assert_eq!(pool.total_salary, 0);
    assert_eq!(pool.exchange_rate, 3);
    assert_eq!(raw(&pool.accumulated_salary_per_share), 0);
    assert_eq!(pool.last_updated_timestamp, 7);
}

#[test]
fn initialize_twice_is_refused() {
    assert_eq!(initialize(true, ADMIN, VAULT, 1, 0).unwrap_err(), SalaryError::AlreadyInitialized);
}

#[test]
fn accrual_over_hundred_seconds() {
    // 100 / 86400 to twelve places, rounded as the fixed-point layer rounds.
    let d = calculate_accumulated_salary_per_share(0, 100, 1).unwrap();
    assert_eq!(raw(&d), 1_157_407_407);
    let half = calculate_accumulated_salary_per_share(0, 100, 2).unwrap();
    assert_eq!(raw(&half), 578_703_703);
    let third = calculate_accumulated_salary_per_share(0, 1_000, 3).unwrap();
    assert_eq!(raw(&third), 3_858_024_691);
    let day = calculate_accumulated_salary_per_share(-86_400, 0, 1).unwrap();
    assert_eq!(raw(&day), ONE);
}

#[test]
fn accrual_backwards_in_time_is_a_fault() {
    assert_eq!(calculate_accumulated_salary_per_share(10, 9, 1).unwrap_err(), SalaryError::ArithmeticFault);
}

#[test]
fn accrual_at_zero_exchange_rate_is_a_fault() {
    assert_eq!(calculate_accumulated_salary_per_share(0, 10, 0).unwrap_err(), SalaryError::ArithmeticFault);
}

#[test]
fn growth_does_not_depend_on_total_rate() {
    let a = pool_at(0, 1);
    let b = SalaryProgramSharedState { total_salary: 1_000_000, ..a };
    let a1 = a.sync(5_000).unwrap();
    let b1 = b.sync(5_000).unwrap();
    assert_eq!(raw(&a1.accumulated_salary_per_share), raw(&b1.accumulated_salary_per_share));
    assert!(raw(&a1.accumulated_salary_per_share) > 0);
    assert_eq!(b1.total_salary, 1_000_000);
}

#[test]
fn sync_twice_at_same_instant_changes_nothing() {
    let pool = pool_at(0, 1);
    let once = pool.sync(1_234).unwrap();
    let twice = once.sync(1_234).unwrap();
    assert_eq!(raw(&once.accumulated_salary_per_share), raw(&twice.accumulated_salary_per_share));
    assert_eq!(once.last_updated_timestamp, 1_234);
    assert_eq!(twice.last_updated_timestamp, 1_234);
}

#[test]
fn sync_before_last_update_is_a_fault() {
    let pool = pool_at(100, 1);
    assert_eq!(pool.sync(99).unwrap_err(), SalaryError::ArithmeticFault);
}

#[test]
fn sync_at_same_instant_with_zero_exchange_rate_is_a_no_op() {
    let pool = pool_at(100, 0);
    let same = pool.sync(100).unwrap();
    assert_eq!(same.last_updated_timestamp, 100);
    assert_eq!(raw(&same.accumulated_salary_per_share), 0);
}

#[test]
fn one_participant_paid_for_elapsed_time() {
    let pool = pool_at(0, 1);
    let (pool, alice) = enrol(&pool, ALICE, ALICE_TOKENS, 86_400, 0);
    assert_eq!(pool.total_salary, 86_400);
    let (pool, alice, amount) = claim_salary(&pool, &alice, &ALICE, 100).unwrap();
    // 100 less the fixed-point truncation: 99.9999999648 accrued, whole units paid.
    assert_eq!(amount, 99);
    assert_eq!(raw(&alice.salary_debt), 99 * ONE);
    assert_eq!(alice.last_claimed_timestamp, 100);
    // Nothing whole is left to claim at the same instant.
    let (pool, alice, again) = claim_salary(&pool, &alice, &ALICE, 100).unwrap();
    assert_eq!(again, 0);
    // The fraction is not lost: it comes with the next claim.
    let (_, _, later) = claim_salary(&pool, &alice, &ALICE, 200).unwrap();
    assert_eq!(later, 100);
}

#[test]
fn late_joiner_is_not_paid_for_earlier_accrual() {
    let pool = pool_at(0, 1);
    let (pool, _alice) = enrol(&pool, ALICE, ALICE_TOKENS, 86_400, 0);
    let (pool, bob) = enrol(&pool, BOB, BOB_TOKENS, 86_400, 50);
    assert_eq!(pool.total_salary, 172_800);
    let (_, _, amount) = claim_salary(&pool, &bob, &BOB, 100).unwrap();
    // 50 less the fixed-point truncation, not 100.
    assert_eq!(amount, 49);
}

#[test]
fn nothing_to_claim_right_after_enrolment() {
    let pool = pool_at(0, 1);
    let (pool, _alice) = enrol(&pool, ALICE, ALICE_TOKENS, 86_400, 0);
    let (pool, bob) = enrol(&pool, BOB, BOB_TOKENS, 1_000, 1_000_000);
    assert!(raw(&pool.accumulated_salary_per_share) > 11 * ONE);
    let (_, bob_after, amount) = claim_salary(&pool, &bob, &BOB, 1_000_000).unwrap();
    assert_eq!(amount, 0);
    assert_eq!(raw(&bob_after.salary_debt), raw(&bob.salary_debt));
}

#[test]
fn stale_debt_is_an_accounting_fault() {
    let pool = pool_at(0, 1);
    let (pool, alice) = enrol(&pool, ALICE, ALICE_TOKENS, 86_400, 0);
    let stale = EmployeeSalaryState { salary_debt: fixed(1_000 * ONE), ..alice };
    assert_eq!(claim_salary(&pool, &stale, &ALICE, 100).unwrap_err(), SalaryError::AccountingFault);
}

#[test]
fn claim_by_another_is_unauthorized() {
    let pool = pool_at(0, 1);
    let (pool, alice) = enrol(&pool, ALICE, ALICE_TOKENS, 86_400, 0);
    assert_eq!(claim_salary(&pool, &alice, &BOB, 100).unwrap_err(), SalaryError::Unauthorized);
}

#[test]
fn enrolment_by_another_is_unauthorized() {
    let pool = pool_at(0, 1);
    assert_eq!(add_employee(&pool, &ALICE, ALICE, ALICE_TOKENS, 10, 0).unwrap_err(), SalaryError::Unauthorized);
}

#[test]
fn enrolment_beyond_total_rate_bound_is_a_fault() {
    let pool = SalaryProgramSharedState { total_salary: u128::MAX, ..pool_at(0, 1) };
    assert_eq!(add_employee(&pool, &ADMIN, ALICE, ALICE_TOKENS, 1, 0).unwrap_err(), SalaryError::ArithmeticFault);
}

#[test]
fn payment_beyond_native_unit_is_a_fault() {
    let pool = pool_at(0, 1);
    let (pool, alice) = enrol(&pool, ALICE, ALICE_TOKENS, 1_000_000_000_000_000_000_000_000_000_000, 0);
    assert_eq!(claim_salary(&pool, &alice, &ALICE, 86_400).unwrap_err(), SalaryError::ArithmeticFault);
}

#[test]
fn exchange_rate_change_by_another_is_unauthorized() {
    let pool = pool_at(0, 1);
    assert_eq!(update_exchange_rate(&pool, &ALICE, 2, 10).unwrap_err(), SalaryError::Unauthorized);
}

#[test]
fn exchange_rate_change_keeps_earlier_accrual() {
    let pool = pool_at(0, 1);
    let (pool, alice) = enrol(&pool, ALICE, ALICE_TOKENS, 86_400, 0);
    let pool = update_exchange_rate(&pool, &ADMIN, 2, 100).unwrap();
    assert_eq!(pool.exchange_rate, 2);
    assert_eq!(pool.last_updated_timestamp, 100);
    assert_eq!(raw(&pool.accumulated_salary_per_share), 1_157_407_407);
    // 100 s at rate 1, then 200 s at rate 2: 200 less the truncation.
    let (_, _, amount) = claim_salary(&pool, &alice, &ALICE, 300).unwrap();
    assert_eq!(amount, 199);
}

#[test]
fn accumulator_and_time_never_go_back() {
    let mut pool = pool_at(0, 1);
    let (p, mut alice) = enrol(&pool, ALICE, ALICE_TOKENS, 86_400, 10);
    pool = p;
    let mut acc = raw(&pool.accumulated_salary_per_share);
    let mut last = pool.last_updated_timestamp;
    for now in [10i64, 40, 40, 95, 300] {
        let (p, a, _) = claim_salary(&pool, &alice, &ALICE, now).unwrap();
        assert!(raw(&p.accumulated_salary_per_share) >= acc);
        assert!(p.last_updated_timestamp >= last);
        acc = raw(&p.accumulated_salary_per_share);
        last = p.last_updated_timestamp;
        pool = p;
        alice = a;
    }
    assert_eq!(last, 300);
}

#[test]
fn claims_pay_exactly_what_the_debt_records() {
    let pool = pool_at(0, 1);
    let (mut pool, mut alice) = enrol(&pool, ALICE, ALICE_TOKENS, 86_400, 0);
    let start = raw(&alice.salary_debt);
    let mut paid: u128 = 0;
    for now in [7i64, 19, 19, 250, 251, 1_000] {
        let (p, a, amount) = claim_salary(&pool, &alice, &ALICE, now).unwrap();
        paid += amount as u128;
        pool = p;
        alice = a;
    }
    assert_eq!(raw(&alice.salary_debt), start + paid * ONE);
    // 1000 s at one unit per second, less under one unit of truncation per claim.
    assert!(paid <= 1_000 && paid >= 994);
}

#[test]
fn vault_authority_is_the_program_derived_address() {
    let program_id = [9u8; 32];
    let (address, bump) = derive_authority(&program_id).unwrap();
    let (expected, expected_bump) = Pubkey::find_program_address(&[b"salary_vault_authority"], &Pubkey::new_from_array(program_id));
    assert_eq!(address, expected.to_bytes());
    assert_eq!(bump, expected_bump);
    assert_ne!(address, program_id);
    assert_eq!(&SALARY_VAULT_PDA_SEED, b"salary_vault_authority");
    assert_eq!(derive_authority(&program_id), Some((address, bump)));
}
