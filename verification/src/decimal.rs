//! A fixed-point decimal representation: a sign flag, a magnitude below
//! `2^96`, and a base-10 scale of at most 28. A value stands for the rational
//! `mag / 10^scale`, negated when the sign flag is set. This is the value
//! space of `rust_decimal::Decimal`, which performs the arithmetic behind the
//! scenes; the saturation and threshold logic around it is verified here.

use crate::backend::backend_exp;
use crate::backend::backend_ln;
use crate::backend::backend_prod;
use crate::backend::backend_quot;
use crate::backend::backend_sum;
use crate::backend::dec_exp_of;
use crate::backend::dec_ln_of;
use crate::backend::dec_prod_of;
use crate::backend::dec_quot_of;
use crate::backend::dec_sum_of;
use crate::backend::draw_u64;
use crate::num::NumError;
use crate::num::RealNumber;
use vstd::arithmetic::power::lemma_pow0;
use vstd::arithmetic::power::lemma_pow1;
use vstd::arithmetic::power::lemma_pow_adds;
use vstd::arithmetic::power::lemma_pow_increases;
use vstd::arithmetic::power::lemma_pow_positive;
use vstd::arithmetic::power::pow;
use vstd::prelude::*;

verus! {

/// One more than the largest magnitude the representation holds (`2^96`).
pub const MAG_LIMIT: u128 = 79228162514264337593543950336;

/// The largest base-10 scale the representation holds.
pub const MAX_SCALE: u32 = 28;

/// `10^e`.
pub open spec fn pow10(e: nat) -> int {
    pow(10, e)
}

/// A fixed-point decimal: `mag / 10^scale`, negated when `neg` is set.
/// The sign flag is kept separately from the magnitude, so a negative zero
/// is a distinct value of the representation, as it is for the arithmetic
/// backend.
#[derive(Clone, Copy, Debug, PartialEq, Eq, Structural)]
pub struct Dec {
    pub neg: bool,
    pub mag: u128,
    pub scale: u32,
}

impl Dec {
    /// Well-formedness: the magnitude and the scale fit the representation.
    pub open spec fn wf(self) -> bool {
        self.mag < MAG_LIMIT && self.scale <= MAX_SCALE
    }

    /// Numerator of the value: the signed magnitude.
    pub open spec fn val_num(self) -> int {
        if self.neg {
            -(self.mag as int)
        } else {
            self.mag as int
        }
    }

    /// Denominator of the value: `10^scale`, always positive.
    pub open spec fn val_denom(self) -> int {
        pow10(self.scale as nat)
    }
}

pub proof fn lemma_pow10_pos(e: nat)
    ensures
        pow10(e) >= 1,
{
    lemma_pow_positive(10, e);
}

pub proof fn lemma_pow10_increases(e1: nat, e2: nat)
    requires
        e1 <= e2,
    ensures
        pow10(e1) <= pow10(e2),
{
    lemma_pow_increases(10, e1, e2);
}

/// `10^28` written out, the largest denominator that can arise.
pub proof fn lemma_pow10_cap()
    ensures
        pow10(28) == 10000000000000000000000000000int,
{
    reveal_with_fuel(pow, 29);
}

/// Computes `10^e` exactly, for scales the representation admits.
pub(crate) fn pow10_i128(e: u32) -> (p: i128)
    requires
        e <= MAX_SCALE,
    ensures
        p == pow10(e as nat),
{
    proof {
        lemma_pow0(10);
    }
    let mut p: i128 = 1;
    let mut i: u32 = 0;
    while i < e
        invariant
            i <= e <= MAX_SCALE,
            p == pow10(i as nat),
        decreases e - i,
    {
        proof {
            lemma_pow_adds(10, i as nat, 1);
            lemma_pow1(10);
            assert(pow(10, (i + 1) as nat) == 10 * pow(10, i as nat));
            lemma_pow10_increases((i + 1) as nat, 28);
            lemma_pow10_cap();
            lemma_pow10_pos(i as nat);
        }
        p = p * 10;
        i = i + 1;
    }
    p
}

/// Whether the value of `x` is below the integer `c`, that is, whether
/// `x.val_num() < c * 10^x.scale`.
pub(crate) fn num_lt_int(x: &Dec, c: i64) -> (r: bool)
    requires
        x.wf(),
        -100 <= c <= 100,
    ensures
        r == (x.val_num() < c * x.val_denom()),
{
    let p: i128 = pow10_i128(x.scale);
    proof {
        lemma_pow10_pos(x.scale as nat);
        lemma_pow10_increases(x.scale as nat, 28);
        lemma_pow10_cap();
        assert((-100) * 10000000000000000000000000000int <= c * p <= 100
            * 10000000000000000000000000000int) by (nonlinear_arith)
            requires
                -100 <= c <= 100,
                1 <= p <= 10000000000000000000000000000int,
        ;
    }
    let rhs: i128 = (c as i128) * p;
    let m: i128 = x.mag as i128;
    let lhs: i128 = if x.neg {
        -m
    } else {
        m
    };
    lhs < rhs
}

/// `10^18` written out, the denominator of the random samples.
pub proof fn lemma_pow10_rand_denom()
    ensures
        pow10(18) == 1000000000000000000int,
{
    reveal_with_fuel(pow, 19);
}

/// Magnitude beyond which `sigmoid` saturates; conservatively below the
/// magnitude at which the backend's `e^x` leaves the representable range.
pub const SIG_CUTOFF: i64 = 40;

/// Value above which `ln_1pe` returns its argument: there `ln(1 + e^x)`
/// rounds to `x` under the representation, and `e^x` is not formed.
pub const LN_1PE_CUTOFF: i64 = 15;

/// Number of fractional digits of a random sample in `[0, 1)`.
pub const RAND_SCALE: u32 = 18;

impl Dec {
    /// The same value with the sign flag flipped; negation of the
    /// representation, which takes a zero to a negative zero.
    pub open spec fn neg_spec(self) -> Dec {
        Dec { neg: !self.neg, mag: self.mag, scale: self.scale }
    }

    /// Builds a decimal from its parts, rejecting parts the representation
    /// cannot hold.
    pub fn from_parts(neg: bool, mag: u128, scale: u32) -> (r: Result<Dec, NumError>)
        ensures
            mag < MAG_LIMIT && scale <= MAX_SCALE ==> r == Ok::<Dec, NumError>(
                Dec { neg, mag, scale },
            ),
            !(mag < MAG_LIMIT && scale <= MAX_SCALE) ==> r == Err::<Dec, NumError>(
                NumError::OutOfRange,
            ),
    {
        if mag < MAG_LIMIT && scale <= MAX_SCALE {
            Ok(Dec { neg, mag, scale })
        } else {
            Err(NumError::OutOfRange)
        }
    }

    /// Builds the decimal `m / 10^scale`, rejecting scales the
    /// representation cannot hold instead of panicking on them.
    pub fn new(m: i64, scale: u32) -> (r: Result<Dec, NumError>)
        ensures
            scale <= MAX_SCALE ==> (r matches Ok(d) && d.wf() && d.val_num() == m as int
                && d.scale == scale && d.neg == (m < 0)),
            scale > MAX_SCALE ==> r == Err::<Dec, NumError>(NumError::OutOfRange),
    {
        if scale <= MAX_SCALE {
            if m < 0 {
                Ok(Dec { neg: true, mag: (-(m as i128)) as u128, scale })
            } else {
                Ok(Dec { neg: false, mag: m as u128, scale })
            }
        } else {
            Err(NumError::OutOfRange)
        }
    }

    /// Maps raw uniform bits onto a decimal in `[0, 1)` with `RAND_SCALE`
    /// fractional digits. Every bit pattern yields a well-formed value in
    /// range, so the synthesis cannot fail, whatever the source hands out.
    pub fn unit_interval_from_bits(bits: u64) -> (r: Dec)
        ensures
            r.wf(),
            !r.neg,
            0 <= r.val_num() < r.val_denom(),
    {
        let mag: u64 = bits % 1000000000000000000u64;
        proof {
            lemma_pow10_rand_denom();
        }
        Dec { neg: false, mag: mag as u128, scale: RAND_SCALE }
    }
}

/// Whether the value of `x` is above the integer `c`, that is, whether
/// `x.val_num() > c * 10^x.scale`.
pub(crate) fn num_gt_int(x: &Dec, c: i64) -> (r: bool)
    requires
        x.wf(),
        -100 <= c <= 100,
    ensures
        r == (x.val_num() > c * x.val_denom()),
{
    let p: i128 = pow10_i128(x.scale);
    proof {
        lemma_pow10_pos(x.scale as nat);
        lemma_pow10_increases(x.scale as nat, 28);
        lemma_pow10_cap();
        assert((-100) * 10000000000000000000000000000int <= c * p <= 100
            * 10000000000000000000000000000int) by (nonlinear_arith)
            requires
                -100 <= c <= 100,
                1 <= p <= 10000000000000000000000000000int,
        ;
    }
    let rhs: i128 = (c as i128) * p;
    let m: i128 = x.mag as i128;
    let lhs: i128 = if x.neg {
        -m
    } else {
        m
    };
    lhs > rhs
}

impl RealNumber for Dec {
    open spec fn num_spec(self) -> int {
        self.val_num()
    }

    open spec fn denom_spec(self) -> int {
        self.val_denom()
    }

    open spec fn sign_neg(self) -> bool {
        self.neg
    }

    open spec fn inv(self) -> bool {
        self.wf()
    }

    open spec fn sig_cutoff() -> int {
        SIG_CUTOFF as int
    }

    open spec fn ln_1pe_cutoff() -> int {
        LN_1PE_CUTOFF as int
    }

    open spec fn prod_spec(self, rhs: Self) -> Option<Self> {
        dec_prod_of(self, rhs)
    }

    open spec fn sigmoid_mid_spec(self) -> Result<Self, NumError> {
        match dec_exp_of(self.neg_spec()) {
            Some(e) => match dec_sum_of(Self::one_spec(), e) {
                Some(s) => match dec_quot_of(Self::one_spec(), s) {
                    Some(q) => Ok(q),
                    None => Err(NumError::OutOfRange),
                },
                None => Err(NumError::OutOfRange),
            },
            None => Err(NumError::OutOfRange),
        }
    }

    open spec fn ln_1pe_low_spec(self) -> Result<Self, NumError> {
        match dec_exp_of(self) {
            Some(e) => match dec_sum_of(Self::one_spec(), e) {
                Some(s) => match dec_ln_of(s) {
                    Some(v) => Ok(v),
                    None => Err(NumError::OutOfRange),
                },
                None => Err(NumError::OutOfRange),
            },
            None => Err(NumError::OutOfRange),
        }
    }

    open spec fn bits32_spec(self) -> Result<u32, NumError> {
        Err(NumError::Unsupported)
    }

    open spec fn zero_spec() -> Self {
        Dec { neg: false, mag: 0, scale: 0 }
    }

    open spec fn one_spec() -> Self {
        Dec { neg: false, mag: 1, scale: 0 }
    }

    open spec fn two_spec() -> Self {
        Dec { neg: false, mag: 2, scale: 0 }
    }

    open spec fn half_spec() -> Self {
        Dec { neg: false, mag: 5, scale: 1 }
    }

    proof fn lemma_inv_denom(x: Self) {
        lemma_pow10_pos(x.scale as nat);
    }

    proof fn lemma_constants_exact() {
        lemma_pow0(10);
        lemma_pow1(10);
    }

    fn copysign(self, sign: Self) -> (r: Self) {
        Dec { neg: sign.neg, mag: self.mag, scale: self.scale }
    }

    fn ln_1pe(self) -> (r: Result<Self, NumError>) {
        if num_gt_int(&self, LN_1PE_CUTOFF) {
            Ok(self)
        } else {
            let one = Dec { neg: false, mag: 1, scale: 0 };
            match backend_exp(&self) {
                None => Err(NumError::OutOfRange),
                Some(e) => match backend_sum(&one, &e) {
                    None => Err(NumError::OutOfRange),
                    Some(s) => match backend_ln(&s) {
                        None => Err(NumError::OutOfRange),
                        Some(v) => Ok(v),
                    },
                },
            }
        }
    }

    fn sigmoid(self) -> (r: Result<Self, NumError>) {
        proof {
            lemma_pow10_pos(self.scale as nat);
        }
        if num_lt_int(&self, -SIG_CUTOFF) {
            Ok(Dec { neg: false, mag: 0, scale: 0 })
        } else if num_gt_int(&self, SIG_CUTOFF) {
            Ok(Dec { neg: false, mag: 1, scale: 0 })
        } else {
            let one = Dec { neg: false, mag: 1, scale: 0 };
            let flipped = Dec { neg: !self.neg, mag: self.mag, scale: self.scale };
            match backend_exp(&flipped) {
                None => Err(NumError::OutOfRange),
                Some(e) => match backend_sum(&one, &e) {
                    None => Err(NumError::OutOfRange),
                    Some(s) => match backend_quot(&one, &s) {
                        None => Err(NumError::OutOfRange),
                        Some(q) => Ok(q),
                    },
                },
            }
        }
    }

    fn rand(rng: &mut rand::rngs::StdRng) -> (r: Self) {
        let bits = draw_u64(rng);
        Dec::unit_interval_from_bits(bits)
    }

    fn two() -> (r: Self) {
        Dec { neg: false, mag: 2, scale: 0 }
    }

    fn half() -> (r: Self) {
        Dec { neg: false, mag: 5, scale: 1 }
    }

    fn square(self) -> (r: Result<Self, NumError>) {
        match backend_prod(&self, &self) {
            None => Err(NumError::OutOfRange),
            Some(v) => Ok(v),
        }
    }

    fn to_f32_bits(self) -> (r: Result<u32, NumError>) {
        Err(NumError::Unsupported)
    }
}

} // verus!
