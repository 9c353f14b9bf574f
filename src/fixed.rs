//! Fixed-point numbers with twelve decimal places over 256 bits, computed by
//! spl-math's `PreciseNumber`.
use spl_math::precise_number::PreciseNumber;
use spl_math::uint::U256;
use vstd::prelude::*;

verus! {

/// The raw value of the number one: twelve decimal places.
pub const ONE: u128 = 1_000_000_000_000;

/// Half of `ONE`, added before a division to round to nearest.
pub const HALF: u128 = 500_000_000_000;

/// `ONE` as a mathematical integer.
pub open spec fn unit() -> nat {
    ONE as nat
}

/// `HALF` as a mathematical integer.
pub open spec fn half_unit() -> nat {
    HALF as nat
}

/// 2^256: raw values stay strictly below it.
pub open spec fn limit() -> nat {
    115792089237316195423570985008687907853269984665640564039457584007913129639936nat
}

/// A non-negative fixed-point number: the four 64-bit words of its raw value,
/// least significant first; the number it stands for is the raw value / `ONE`.
#[derive(Clone, Copy, Debug, PartialEq, Eq, Structural)]
pub struct Fixed {
    pub w0: u64,
    pub w1: u64,
    pub w2: u64,
    pub w3: u64,
}

impl View for Fixed {
    type V = nat;

    /// The raw value.
    open spec fn view(&self) -> nat {
        self.w0 as nat + self.w1 as nat * 0x1_0000_0000_0000_0000nat
            + self.w2 as nat * 0x1_0000_0000_0000_0000_0000_0000_0000_0000nat
            + self.w3 as nat * 0x1_0000_0000_0000_0000_0000_0000_0000_0000_0000_0000_0000_0000nat
    }
}

/// Raw value of the sum, when it fits.
pub open spec fn fixed_add(a: nat, b: nat) -> Option<nat> {
    if a + b < limit() { Some(a + b) } else { None }
}

/// Raw value of the difference, when it is not negative.
pub open spec fn fixed_sub(a: nat, b: nat) -> Option<nat> {
    if a >= b { Some((a - b) as nat) } else { None }
}

/// Raw value of the product, rounded to nearest; where the raw product does not
/// fit, the larger factor is first truncated to whole units.
pub open spec fn fixed_mul(a: nat, b: nat) -> Option<nat> {
    let one = unit();
    let half = half_unit();
    if a * b < limit() {
        if a * b + half < limit() { Some((a * b + half) / one) } else { None }
    } else {
        let big = if a >= b { a } else { b };
        let small = if a >= b { b } else { a };
        let v = (big / one) * small;
        if v < limit() { Some(v) } else { None }
    }
}

/// Raw value of the quotient, rounded to nearest; where the scaled dividend
/// does not fit, the quotient is taken in whole units.
pub open spec fn fixed_div(a: nat, b: nat) -> Option<nat> {
    let one = unit();
    let half = half_unit();
    if b == 0 {
        None
    } else if a * one < limit() {
        if a * one + half < limit() { Some((a * one + half) / b) } else { None }
    } else if a + half < limit() {
        let q = (a + half) / b;
        if q * one < limit() { Some(q * one) } else { None }
    } else {
        None
    }
}

/// The raw value of an optional result.
pub open spec fn raw_of(r: Option<Fixed>) -> Option<nat> {
    match r {
        Some(x) => Some(x@),
        None => None,
    }
}

impl Fixed {
    /// The number zero.
    pub fn zero() -> (r: Fixed)
        ensures
            r@ == 0,
    {
        Fixed { w0: 0, w1: 0, w2: 0, w3: 0 }
    }
}

/// Relies on `PreciseNumber::new`: the raw value is `v * ONE`, which always fits.
#[verifier::external_body]
pub(crate) fn precise_new(v: u128) -> (r: Option<Fixed>)
    ensures
        raw_of(r) == Some((v * ONE) as nat),
{
    PreciseNumber::new(v).map(|p| Fixed { w0: p.value.0[0], w1: p.value.0[1], w2: p.value.0[2], w3: p.value.0[3] })
}

/// Relies on `PreciseNumber::checked_add`.
#[verifier::external_body]
pub(crate) fn precise_add(a: &Fixed, b: &Fixed) -> (r: Option<Fixed>)
    ensures
        raw_of(r) == fixed_add(a@, b@),
{
    let pa = PreciseNumber { value: U256([a.w0, a.w1, a.w2, a.w3]) };
    let pb = PreciseNumber { value: U256([b.w0, b.w1, b.w2, b.w3]) };
    pa.checked_add(&pb).map(|p| Fixed { w0: p.value.0[0], w1: p.value.0[1], w2: p.value.0[2], w3: p.value.0[3] })
}

/// Relies on `PreciseNumber::checked_sub`.
#[verifier::external_body]
pub(crate) fn precise_sub(a: &Fixed, b: &Fixed) -> (r: Option<Fixed>)
    ensures
        raw_of(r) == fixed_sub(a@, b@),
{
    let pa = PreciseNumber { value: U256([a.w0, a.w1, a.w2, a.w3]) };
    let pb = PreciseNumber { value: U256([b.w0, b.w1, b.w2, b.w3]) };
    pa.checked_sub(&pb).map(|p| Fixed { w0: p.value.0[0], w1: p.value.0[1], w2: p.value.0[2], w3: p.value.0[3] })
}

/// Relies on `PreciseNumber::checked_mul`.
#[verifier::external_body]
pub(crate) fn precise_mul(a: &Fixed, b: &Fixed) -> (r: Option<Fixed>)
    ensures
        raw_of(r) == fixed_mul(a@, b@),
{
    let pa = PreciseNumber { value: U256([a.w0, a.w1, a.w2, a.w3]) };
    let pb = PreciseNumber { value: U256([b.w0, b.w1, b.w2, b.w3]) };
    pa.checked_mul(&pb).map(|p| Fixed { w0: p.value.0[0], w1: p.value.0[1], w2: p.value.0[2], w3: p.value.0[3] })
}

/// Relies on `PreciseNumber::checked_div`.
#[verifier::external_body]
pub(crate) fn precise_div(a: &Fixed, b: &Fixed) -> (r: Option<Fixed>)
    ensures
        raw_of(r) == fixed_div(a@, b@),
{
    let pa = PreciseNumber { value: U256([a.w0, a.w1, a.w2, a.w3]) };
    let pb = PreciseNumber { value: U256([b.w0, b.w1, b.w2, b.w3]) };
    pa.checked_div(&pb).map(|p| Fixed { w0: p.value.0[0], w1: p.value.0[1], w2: p.value.0[2], w3: p.value.0[3] })
}

/// Relies on `PreciseNumber::floor`: drops the fraction, which always fits.
#[verifier::external_body]
pub(crate) fn precise_floor(a: &Fixed) -> (r: Option<Fixed>)
    ensures
        raw_of(r) == Some((a@ / unit()) * unit()),
{
    let pa = PreciseNumber { value: U256([a.w0, a.w1, a.w2, a.w3]) };
    pa.floor().map(|p| Fixed { w0: p.value.0[0], w1: p.value.0[1], w2: p.value.0[2], w3: p.value.0[3] })
}

/// Relies on `PreciseNumber::to_imprecise`: whole units, rounded to nearest.
/// Its narrowing to `u128` panics on a larger value, which `requires` leaves out.
#[verifier::external_body]
pub(crate) fn precise_to_imprecise(a: &Fixed) -> (r: Option<u128>)
    requires
        (a@ + half_unit()) / unit() <= u128::MAX,
    ensures
        r == Some(((a@ + half_unit()) / unit()) as u128),
{
    let pa = PreciseNumber { value: U256([a.w0, a.w1, a.w2, a.w3]) };
    pa.to_imprecise()
}

/// Relies on `PreciseNumber::less_than_or_equal`.
#[verifier::external_body]
pub(crate) fn precise_le(a: &Fixed, b: &Fixed) -> (r: bool)
    ensures
        r == (a@ <= b@),
{
    let pa = PreciseNumber { value: U256([a.w0, a.w1, a.w2, a.w3]) };
    let pb = PreciseNumber { value: U256([b.w0, b.w1, b.w2, b.w3]) };
    pa.less_than_or_equal(&pb)
}

} // verus!
