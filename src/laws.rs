//! What holds across operations of the ledger.
use crate::accrual::{accrual, SECONDS_PER_DAY};
use crate::employee::{claimable, claimed, enrolled, gross, lemma_whole_units, RecordModel};
use crate::error::SalaryError;
use crate::fixed::{half_unit, limit, unit};
use crate::pool::{synced, PoolModel};
use vstd::arithmetic::div_mod::{lemma_div_denominator, lemma_fundamental_div_mod, lemma_mod_pos_bound};
use vstd::prelude::*;

verus! {

/// The accumulator's growth does not depend on the pool's total rate: two
/// pools that differ in nothing else, brought up to the same instant, either
/// both fail or both grow by the same amount.
pub proof fn lemma_growth_independent_of_total_rate(a: PoolModel, b: PoolModel, now: int)
    requires
        a == (PoolModel { total_rate: a.total_rate, ..b }),
    ensures
        synced(a, now) is Ok == synced(b, now) is Ok,
        synced(a, now) is Ok ==> synced(a, now)->Ok_0.accumulator - a.accumulator
            == synced(b, now)->Ok_0.accumulator - b.accumulator,
{
}

/// A participant claiming at the very instant of its enrolment is paid
/// nothing, however much the accumulator had grown before, and its debt stays.
pub proof fn lemma_nothing_to_claim_at_enrolment(
    p: PoolModel,
    caller: Seq<u8>,
    employee: Seq<u8>,
    payout: Seq<u8>,
    rate: nat,
    now: int,
)
    requires
        enrolled(p, caller, employee, payout, rate, now) is Ok,
    ensures
        ({
            let (q, r) = enrolled(p, caller, employee, payout, rate, now)->Ok_0;
            &&& claimed(q, r, employee, now) is Ok
            &&& claimed(q, r, employee, now)->Ok_0.2 == 0
            &&& claimed(q, r, employee, now)->Ok_0.1.debt == r.debt
        }),
{
    let (q, r) = enrolled(p, caller, employee, payout, rate, now)->Ok_0;
    assert(synced(q, now) == Ok::<PoolModel, SalaryError>(q));
    assert(0nat / unit() == 0);
}

/// Bringing the pool up to the same instant a second time changes nothing.
pub proof fn lemma_sync_idempotent(p: PoolModel, now: int)
    requires
        synced(p, now) is Ok,
    ensures
        synced(synced(p, now)->Ok_0, now) == synced(p, now),
{
}

/// A claim against a debt that exceeds `rate × accumulator` fails with an
/// accounting fault; it never pays a clamped amount.
pub proof fn lemma_negative_claimable_refused(p: PoolModel, r: RecordModel, now: int)
    requires
        synced(p, now) is Ok,
        gross(r.rate, synced(p, now)->Ok_0.accumulator) matches Some(g) && g < r.debt,
    ensures
        claimed(p, r, r.owner, now) == Err::<(PoolModel, RecordModel, nat), SalaryError>(SalaryError::AccountingFault),
{
}

/// Right after a successful claim nothing whole is left to claim: what
/// remains is a fraction of one unit, never negative.
pub proof fn lemma_claim_settles(p: PoolModel, r: RecordModel, caller: Seq<u8>, now: int)
    requires
        claimed(p, r, caller, now) is Ok,
    ensures
        ({
            let (q, s, _) = claimed(p, r, caller, now)->Ok_0;
            claimable(q, s) matches Some(c) && 0 <= c < unit()
        }),
{
    let q = synced(p, now)->Ok_0;
    let g = gross(r.rate, q.accumulator)->Some_0;
    lemma_whole_units((g - r.debt) as nat);
}

/// Claims by a record's owner at each instant of `times`, in order: the pool
/// and record after them and the total paid.
pub open spec fn claims(p: PoolModel, r: RecordModel, times: Seq<int>) -> Result<
    (PoolModel, RecordModel, nat),
    SalaryError,
>
    decreases times.len(),
{
    if times.len() == 0 {
        Ok((p, r, 0))
    } else {
        match claims(p, r, times.drop_last()) {
            Err(e) => Err(e),
            Ok((q, s, paid)) => match claimed(q, s, s.owner, times.last()) {
                Err(e) => Err(e),
                Ok((q2, s2, a)) => Ok((q2, s2, paid + a)),
            },
        }
    }
}

/// Nothing is lost or paid twice over a run of claims: the debt grows by
/// exactly what was paid, and after the last claim what was paid is the
/// whole units of `rate × accumulator − initial debt`. For a record fresh
/// from enrolment, whose debt is `rate × accumulator` at that instant, the
/// total paid is the whole units of the accrual over its active window.
pub proof fn lemma_claims_conserve(p: PoolModel, r: RecordModel, times: Seq<int>)
    requires
        claims(p, r, times) is Ok,
    ensures
        ({
            let (q, s, paid) = claims(p, r, times)->Ok_0;
            &&& s.rate == r.rate
            &&& s.owner == r.owner
            &&& s.debt == r.debt + paid * unit()
            &&& times.len() > 0 ==> (gross(r.rate, q.accumulator) matches Some(g) && r.debt + paid
                * unit() <= g < r.debt + paid * unit() + unit())
        }),
    decreases times.len(),
{
    if times.len() > 0 {
        lemma_claims_conserve(p, r, times.drop_last());
        let (q, s, paid) = claims(p, r, times.drop_last())->Ok_0;
        let q1 = synced(q, times.last())->Ok_0;
        let g = gross(s.rate, q1.accumulator)->Some_0;
        lemma_whole_units((g - s.debt) as nat);
        let a = ((g - s.debt) as nat) / unit();
        assert(r.debt + (paid + a) * unit() == r.debt + paid * unit() + a * unit()) by (nonlinear_arith);
    }
}

/// `x / d` is the `q` with `q * d <= x < q * d + d`.
proof fn lemma_div_unique(x: int, d: int, q: int)
    requires
        0 <= x,
        0 < d,
        q * d <= x < q * d + d,
    ensures
        x / d == q,
{
    lemma_fundamental_div_mod(x, d);
    lemma_mod_pos_bound(x, d);
    let k = x / d;
    assert(k == q) by (nonlinear_arith)
        requires
            x == d * k + x % d,
            0 <= x % d < d,
            q * d <= x < q * d + d,
            0 < d,
    ;
}

/// The fixed-point quotient of raw `a` by `m` whole units, rounded as the
/// fixed-point layer rounds it, is the truncated quotient `a / m`.
proof fn lemma_rounded_div(a: nat, m: nat)
    requires
        0 < m,
        a < 0x1_0000_0000_0000_0000_0000_0000_0000nat,
    ensures
        a * unit() < limit(),
        a * unit() + half_unit() < limit(),
        (a * unit() + half_unit()) / (m * unit()) == a / m,
{
    let one = unit();
    assert(one == 1_000_000_000_000nat);
    assert(half_unit() == 500_000_000_000nat);
    assert(a * one + half_unit() < limit()) by (nonlinear_arith)
        requires
            a < 0x1_0000_0000_0000_0000_0000_0000_0000nat,
            one == 1_000_000_000_000nat,
            half_unit() == 500_000_000_000nat,
            limit() == 115792089237316195423570985008687907853269984665640564039457584007913129639936nat,
    ;
    let ai = a as int;
    let mi = m as int;
    let oi = one as int;
    let hi = half_unit() as int;
    let k = ai / mi;
    lemma_fundamental_div_mod(ai, mi);
    lemma_mod_pos_bound(ai, mi);
    let r = ai % mi;
    assert(k * (mi * oi) <= ai * oi + hi < k * (mi * oi) + mi * oi) by (nonlinear_arith)
        requires
            ai == mi * k + r,
            0 <= r < mi,
            oi == 1_000_000_000_000int,
            hi == 500_000_000_000int,
            0 < mi,
    ;
    assert(mi * oi > 0) by (nonlinear_arith)
        requires
            0 < mi,
            oi == 1_000_000_000_000int,
    ;
    lemma_div_unique(ai * oi + hi, mi * oi, k);
}

/// Over `elapsed` seconds at `exchange_rate`, the accumulator grows by
/// exactly `elapsed / (SECONDS_PER_DAY × exchange_rate)` truncated to twelve
/// decimal places: never more, and less by under one raw unit.
pub proof fn lemma_accrual_is_truncated_quotient(elapsed: nat, exchange_rate: nat)
    requires
        elapsed <= u64::MAX,
        1 <= exchange_rate <= u128::MAX,
    ensures
        accrual(elapsed, exchange_rate) == Some(
            (elapsed * unit()) / ((SECONDS_PER_DAY as nat) * exchange_rate),
        ),
{
    let one = unit();
    let day = SECONDS_PER_DAY as nat;
    assert(one == 1_000_000_000_000nat);
    assert(elapsed * one < 0x1_0000_0000_0000_0000_0000_0000_0000nat) by (nonlinear_arith)
        requires
            elapsed <= u64::MAX,
            one == 1_000_000_000_000nat,
    ;
    lemma_rounded_div(elapsed * one, day);
    let q1 = (elapsed * one) / day;
    assert(q1 <= elapsed * one) by {
        vstd::arithmetic::div_mod::lemma_div_is_ordered_by_denominator((elapsed * one) as int, 1, day as int);
    }
    lemma_rounded_div(q1, exchange_rate);
    assert(q1 / exchange_rate == (elapsed * one) / (day * exchange_rate)) by {
        lemma_div_denominator((elapsed * one) as int, day as int, exchange_rate as int);
    }
}

} // verus!
