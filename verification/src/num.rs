//! The capability contract: what every real-number representation owes its
//! callers, and the errors an operation may surface.
//!
//! A datum of a representation stands for the rational `num_spec / denom_spec`
//! with a positive denominator, plus a sign flag that keeps a negative zero
//! distinct where the representation has one. The contract pins down the
//! saturation policy of `sigmoid`, the large-argument policy of `ln_1pe`, the
//! exactness of the distinguished constants, and what `square`, `copysign`,
//! `rand` and the bit-pattern capability return.

use vstd::math::abs;
use vstd::prelude::*;

verus! {

/// Why an operation could not return a value.
#[derive(Clone, Copy, Debug, PartialEq, Eq, Structural)]
pub enum NumError {
    /// An input or an intermediate value falls outside the range the
    /// representation can hold.
    OutOfRange,
    /// The capability has no meaning for this representation, so no value is
    /// invented for it.
    Unsupported,
}

/// A real-number representation that generic numeric code can be written
/// against. Ordering, plain arithmetic and conversions are the
/// representation's own business; this trait states the operations whose
/// behaviour the generic code relies on.
pub trait RealNumber: Sized {
    /// Numerator of the value this datum stands for.
    spec fn num_spec(self) -> int;

    /// Denominator of the value this datum stands for; positive for every
    /// well-formed datum.
    spec fn denom_spec(self) -> int;

    /// The representation's sign flag. A zero with the flag set is a
    /// negative zero wherever the representation keeps one.
    spec fn sign_neg(self) -> bool;

    /// Well-formedness of a datum of the representation.
    spec fn inv(self) -> bool;

    /// The magnitude beyond which `sigmoid` saturates, in value units.
    spec fn sig_cutoff() -> int;

    /// The value above which `ln_1pe` returns its argument unchanged.
    spec fn ln_1pe_cutoff() -> int;

    /// What the representation's multiplication returns, `None` where the
    /// product leaves the representable range.
    spec fn prod_spec(self, rhs: Self) -> Option<Self>;

    /// What `sigmoid` returns inside the cutoff band: the representation's
    /// own evaluation of `1 / (1 + e^{-x})`.
    spec fn sigmoid_mid_spec(self) -> Result<Self, NumError>;

    /// What `ln_1pe` returns at or below the threshold: the representation's
    /// own evaluation of `ln(1 + e^x)`.
    spec fn ln_1pe_low_spec(self) -> Result<Self, NumError>;

    /// What the 32-bit pattern capability returns; an error for a
    /// representation whose values have no meaningful 32-bit layout.
    spec fn bits32_spec(self) -> Result<u32, NumError>;

    /// The representation's exact zero.
    spec fn zero_spec() -> Self;

    /// The representation's exact one.
    spec fn one_spec() -> Self;

    /// The representation's exact two.
    spec fn two_spec() -> Self;

    /// The representation's exact half.
    spec fn half_spec() -> Self;

    /// Every well-formed datum has a positive denominator.
    proof fn lemma_inv_denom(x: Self)
        requires
            x.inv(),
        ensures
            x.denom_spec() > 0,
    ;

    /// The distinguished constants are exact, with no rounding delta: zero
    /// is 0, one is 1, two is 1 + 1, and half is 1 divided by two. The
    /// cutoffs are positive, so the two saturation branches of `sigmoid` can
    /// never collide on one comparison.
    proof fn lemma_constants_exact()
        ensures
            Self::zero_spec().inv(),
            Self::zero_spec().num_spec() == 0,
            !Self::zero_spec().sign_neg(),
            Self::one_spec().inv(),
            Self::one_spec().num_spec() == Self::one_spec().denom_spec(),
            Self::two_spec().inv(),
            Self::two_spec().num_spec() == 2 * Self::two_spec().denom_spec(),
            Self::half_spec().inv(),
            2 * Self::half_spec().num_spec() == Self::half_spec().denom_spec(),
            Self::sig_cutoff() > 0,
            Self::ln_1pe_cutoff() > 0,
    ;

    /// A value with the magnitude of `self` and the sign of `sign`. The sign
    /// of a zero follows the representation's own sign-flag semantics.
    fn copysign(self, sign: Self) -> (r: Self)
        requires
            self.inv(),
            sign.inv(),
        ensures
            r.inv(),
            r.denom_spec() == self.denom_spec(),
            abs(r.num_spec()) == abs(self.num_spec()),
            r.sign_neg() == sign.sign_neg(),
    ;

    /// `ln(1 + e^x)`, stable for every representable argument: above the
    /// threshold the argument itself comes back, so that `e^x` is never
    /// formed where it would overflow; below it the representation evaluates
    /// the formula, surfacing a range error instead of wrapping.
    fn ln_1pe(self) -> (r: Result<Self, NumError>)
        requires
            self.inv(),
        ensures
            self.num_spec() > Self::ln_1pe_cutoff() * self.denom_spec() ==> r == Ok::<
                Self,
                NumError,
            >(self),
            self.num_spec() <= Self::ln_1pe_cutoff() * self.denom_spec() ==> r
                == self.ln_1pe_low_spec(),
            r matches Ok(v) ==> v.inv(),
    ;

    /// The logistic sigmoid `1 / (1 + e^{-x})`, saturating to exactly zero
    /// below `-sig_cutoff` and to exactly one above `+sig_cutoff`; the two
    /// saturation tests are independent, correctly signed comparisons.
    fn sigmoid(self) -> (r: Result<Self, NumError>)
        requires
            self.inv(),
        ensures
            self.num_spec() < -Self::sig_cutoff() * self.denom_spec() ==> r == Ok::<
                Self,
                NumError,
            >(Self::zero_spec()),
            self.num_spec() > Self::sig_cutoff() * self.denom_spec() ==> r == Ok::<
                Self,
                NumError,
            >(Self::one_spec()),
            -Self::sig_cutoff() * self.denom_spec() <= self.num_spec() <= Self::sig_cutoff()
                * self.denom_spec() ==> r == self.sigmoid_mid_spec(),
            r matches Ok(v) ==> v.inv(),
    ;

    /// A pseudorandom value in `[0, 1)`, synthesized from the injected
    /// uniform bit source. Whatever bits the source hands out, the result is
    /// well-formed and within range.
    fn rand(rng: &mut rand::rngs::StdRng) -> (r: Self)
        ensures
            r.inv(),
            0 <= r.num_spec() < r.denom_spec(),
            !r.sign_neg(),
    ;

    /// The representation's exact two.
    fn two() -> (r: Self)
        ensures
            r == Self::two_spec(),
    ;

    /// The representation's exact half.
    fn half() -> (r: Self)
        ensures
            r == Self::half_spec(),
    ;

    /// `x * x` under the representation's own multiplication, surfacing a
    /// range error where the product cannot be held.
    fn square(self) -> (r: Result<Self, NumError>)
        requires
            self.inv(),
        ensures
            self.prod_spec(self) matches Some(v) ==> r == Ok::<Self, NumError>(v) && v.inv(),
            self.prod_spec(self) is None ==> r == Err::<Self, NumError>(NumError::OutOfRange),
    ;

    /// The raw 32-bit pattern of the value, for representations whose values
    /// have one; an explicit error, never a placeholder, for the others.
    fn to_f32_bits(self) -> (r: Result<u32, NumError>)
        requires
            self.inv(),
        ensures
            r == self.bits32_spec(),
    ;
}

} // verus!
