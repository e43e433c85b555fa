//! The trusted boundary of the decimal representation. `rust_decimal` does
//! the arithmetic and transcendental work and `rand` supplies raw uniform
//! bits; each function here makes one such call and converts between the
//! backend's values and `Dec`. What a call returns is given a name or stated,
//! and everything around these calls is verified against that.

use crate::decimal::Dec;
use vstd::prelude::*;

verus! {

/// Declares `rand::rngs::StdRng`, the injected uniform bit source, so that
/// it can be carried through signatures; it stays opaque here.
#[verifier::external_type_specification]
#[verifier::external_body]
pub struct ExStdRng(rand::rngs::StdRng);

/// What `rust_decimal`'s `checked_exp` returns for the value of `x`:
/// `e^x` under the backend's evaluation, `None` where an intermediate
/// leaves the representable range.
pub uninterp spec fn dec_exp_of(x: Dec) -> Option<Dec>;

/// What `rust_decimal`'s `checked_ln` returns for the value of `x`:
/// the natural logarithm under the backend's evaluation, `None` for
/// arguments at or below zero and where the evaluation leaves the range.
pub uninterp spec fn dec_ln_of(x: Dec) -> Option<Dec>;

/// What `rust_decimal`'s `checked_add` returns for the values of `a` and
/// `b`, `None` where the sum cannot be held.
pub uninterp spec fn dec_sum_of(a: Dec, b: Dec) -> Option<Dec>;

/// What `rust_decimal`'s `checked_div` returns for the values of `a` and
/// `b`, `None` for a zero divisor and where the quotient cannot be held.
pub uninterp spec fn dec_quot_of(a: Dec, b: Dec) -> Option<Dec>;

/// What `rust_decimal`'s `checked_mul` returns for the values of `a` and
/// `b`, `None` where the product cannot be held.
pub uninterp spec fn dec_prod_of(a: Dec, b: Dec) -> Option<Dec>;

/// Relies on `rust_decimal::MathematicalOps::checked_exp`, a deterministic
/// evaluation of `e^x` that answers `None` instead of overflowing.
#[verifier::external_body]
pub(crate) fn backend_exp(x: &Dec) -> (r: Option<Dec>)
    requires
        x.wf(),
    ensures
        r == dec_exp_of(*x),
        r matches Some(v) ==> v.wf(),
{
    let mut d = rust_decimal::Decimal::from_i128_with_scale(x.mag as i128, x.scale);
    d.set_sign_negative(x.neg);
    match rust_decimal::MathematicalOps::checked_exp(&d) {
        None => None,
        Some(v) => Some(
            Dec { neg: v.is_sign_negative(), mag: v.mantissa().unsigned_abs(), scale: v.scale() },
        ),
    }
}

/// Relies on `rust_decimal::MathematicalOps::checked_ln`, a deterministic
/// evaluation of the natural logarithm that answers `None` instead of
/// panicking or overflowing.
#[verifier::external_body]
pub(crate) fn backend_ln(x: &Dec) -> (r: Option<Dec>)
    requires
        x.wf(),
    ensures
        r == dec_ln_of(*x),
        r matches Some(v) ==> v.wf(),
{
    let mut d = rust_decimal::Decimal::from_i128_with_scale(x.mag as i128, x.scale);
    d.set_sign_negative(x.neg);
    match rust_decimal::MathematicalOps::checked_ln(&d) {
        None => None,
        Some(v) => Some(
            Dec { neg: v.is_sign_negative(), mag: v.mantissa().unsigned_abs(), scale: v.scale() },
        ),
    }
}

/// Relies on `rust_decimal::Decimal::checked_add`, which answers `None`
/// instead of overflowing.
#[verifier::external_body]
pub(crate) fn backend_sum(a: &Dec, b: &Dec) -> (r: Option<Dec>)
    requires
        a.wf(),
        b.wf(),
    ensures
        r == dec_sum_of(*a, *b),
        r matches Some(v) ==> v.wf(),
{
    let mut da = rust_decimal::Decimal::from_i128_with_scale(a.mag as i128, a.scale);
    da.set_sign_negative(a.neg);
    let mut db = rust_decimal::Decimal::from_i128_with_scale(b.mag as i128, b.scale);
    db.set_sign_negative(b.neg);
    match da.checked_add(db) {
        None => None,
        Some(v) => Some(
            Dec { neg: v.is_sign_negative(), mag: v.mantissa().unsigned_abs(), scale: v.scale() },
        ),
    }
}

/// Relies on `rust_decimal::Decimal::checked_div`, which answers `None`
/// for a zero divisor instead of panicking.
#[verifier::external_body]
pub(crate) fn backend_quot(a: &Dec, b: &Dec) -> (r: Option<Dec>)
    requires
        a.wf(),
        b.wf(),
    ensures
        r == dec_quot_of(*a, *b),
        r matches Some(v) ==> v.wf(),
{
    let mut da = rust_decimal::Decimal::from_i128_with_scale(a.mag as i128, a.scale);
    da.set_sign_negative(a.neg);
    let mut db = rust_decimal::Decimal::from_i128_with_scale(b.mag as i128, b.scale);
    db.set_sign_negative(b.neg);
    match da.checked_div(db) {
        None => None,
        Some(v) => Some(
            Dec { neg: v.is_sign_negative(), mag: v.mantissa().unsigned_abs(), scale: v.scale() },
        ),
    }
}

/// Relies on `rust_decimal::Decimal::checked_mul`, which answers `None`
/// instead of overflowing.
#[verifier::external_body]
pub(crate) fn backend_prod(a: &Dec, b: &Dec) -> (r: Option<Dec>)
    requires
        a.wf(),
        b.wf(),
    ensures
        r == dec_prod_of(*a, *b),
        r matches Some(v) ==> v.wf(),
{
    let mut da = rust_decimal::Decimal::from_i128_with_scale(a.mag as i128, a.scale);
    da.set_sign_negative(a.neg);
    let mut db = rust_decimal::Decimal::from_i128_with_scale(b.mag as i128, b.scale);
    db.set_sign_negative(b.neg);
    match da.checked_mul(db) {
        None => None,
        Some(v) => Some(
            Dec { neg: v.is_sign_negative(), mag: v.mantissa().unsigned_abs(), scale: v.scale() },
        ),
    }
}

/// Relies on `rand::Rng::gen` on a `StdRng`: a pseudorandom `u64`. Any value
/// may come back, so nothing is promised of it.
#[verifier::external_body]
pub(crate) fn draw_u64(rng: &mut rand::rngs::StdRng) -> (r: u64) {
    rand::Rng::gen::<u64>(rng)
}

} // verus!
