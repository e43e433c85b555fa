use rand::rngs::StdRng;
use rand::SeedableRng;
use realnum::decimal::Dec;
use realnum::num::NumError;
use realnum::num::RealNumber;
use rust_decimal::Decimal;
use rust_decimal::MathematicalOps;

fn dec(neg: bool, mag: u128, scale: u32) -> Dec {
    Dec::from_parts(neg, mag, scale).unwrap()
}

fn to_decimal(d: &Dec) -> Decimal {
    let mut x = Decimal::from_i128_with_scale(d.mag as i128, d.scale);
    x.set_sign_negative(d.neg);
    x
}

#[test]
fn sigmoid_saturates_high() {
    let x = Dec::new(1000, 0).unwrap();
    assert_eq!(x.sigmoid().unwrap(), dec(false, 1, 0));
    let just_above = Dec::new(41, 0).unwrap();
    assert_eq!(just_above.sigmoid().unwrap(), dec(false, 1, 0));
}

#[test]
fn sigmoid_saturates_low() {
    let x = Dec::new(-1000, 0).unwrap();
    assert_eq!(x.sigmoid().unwrap(), dec(false, 0, 0));
    let just_below = Dec::new(-41, 0).unwrap();
    assert_eq!(just_below.sigmoid().unwrap(), dec(false, 0, 0));
}

#[test]
fn sigmoid_zero_is_half() {
    let x = Dec::new(0, 0).unwrap();
    let r = x.sigmoid().unwrap();
    let h = <Dec as RealNumber>::half();
    assert_eq!(to_decimal(&r), to_decimal(&h));
}

#[test]
fn sigmoid_inside_band_matches_formula() {
    for m in [-40i64, -7, -1, 0, 1, 7, 40] {
        let x = Dec::new(m, 0).unwrap();
        let r = x.sigmoid().unwrap();
        let e = (-Decimal::from(m)).checked_exp().unwrap();
        let expected = Decimal::ONE
            .checked_div(Decimal::ONE.checked_add(e).unwrap())
            .unwrap();
        assert_eq!(to_decimal(&r), expected);
    }
}

#[test]
fn copysign_magnitude_and_sign() {
    let a = dec(false, 25, 1);
    let b = dec(true, 3, 0);
    assert_eq!(a.copysign(b), dec(true, 25, 1));
    assert_eq!(a.copysign(dec(false, 3, 0)), dec(false, 25, 1));
    let na = dec(true, 25, 1);
    assert_eq!(na.copysign(dec(false, 7, 2)), dec(false, 25, 1));
}

#[test]
fn copysign_zero_and_negative_zero() {
    let zero = dec(false, 0, 0);
    let neg_zero = dec(true, 0, 0);
    // a zero picks up the sign flag of the sign argument
    assert_eq!(zero.copysign(dec(true, 1, 0)), neg_zero);
    assert_eq!(neg_zero.copysign(dec(false, 1, 0)), zero);
    // a negative zero as the sign argument makes the result negative
    let a = dec(false, 25, 1);
    assert_eq!(a.copysign(neg_zero), dec(true, 25, 1));
    assert_eq!(a.copysign(zero), dec(false, 25, 1));
}

#[test]
fn constants_are_exact() {
    let two = <Dec as RealNumber>::two();
    let half = <Dec as RealNumber>::half();
    // two() == 1 + 1 under the representation's own addition, exactly
    assert_eq!(
        to_decimal(&two),
        Decimal::ONE.checked_add(Decimal::ONE).unwrap()
    );
    // half() == 1 / two() under the representation's own division, exactly
    assert_eq!(
        to_decimal(&half),
        Decimal::ONE.checked_div(to_decimal(&two)).unwrap()
    );
}

#[test]
fn square_matches_multiplication() {
    let three = Dec::new(3, 0).unwrap();
    let nine = three.square().unwrap();
    assert_eq!(to_decimal(&nine), Decimal::from(9));
    let x = dec(false, 15, 1);  // 1.5
    assert_eq!(to_decimal(&x.square().unwrap()), Decimal::new(225, 2));
}

#[test]
fn square_twice_is_fourth_power() {
    // exactly representable: no rounding on the way
    let x = dec(false, 15, 1);  // 1.5
    let twice = x.square().unwrap().square().unwrap();
    let direct = Decimal::new(15, 1) * Decimal::new(15, 1) * Decimal::new(15, 1)
        * Decimal::new(15, 1);
    assert_eq!(to_decimal(&twice), direct);

    // a value whose fourth power rounds: equal within the last digits kept
    let y = dec(false, 10000000000000001, 16);
    let yd = to_decimal(&y);
    let twice = y.square().unwrap().square().unwrap();
    let direct = yd * yd * yd * yd;
    let delta = (to_decimal(&twice) - direct).abs();
    assert!(delta <= Decimal::new(1, 26));
}

#[test]
fn square_out_of_range() {
    let big = dec(false, 79228162514264337593543950335, 0);
    assert_eq!(big.square(), Err(NumError::OutOfRange));
}

#[test]
fn ln_1pe_above_threshold_returns_argument() {
    let x = Dec::new(1000, 0).unwrap();
    assert_eq!(x.ln_1pe().unwrap(), x);
    let y = dec(false, 1501, 2);  // 15.01, just above the threshold
    assert_eq!(y.ln_1pe().unwrap(), y);
}

#[test]
fn ln_1pe_below_threshold_matches_formula() {
    let x = Dec::new(0, 0).unwrap();
    let r = x.ln_1pe().unwrap();
    let expected = Decimal::from(2).checked_ln().unwrap();
    assert_eq!(to_decimal(&r), expected);
}

#[test]
fn ln_1pe_monotone_across_boundary() {
    // 14.9, 15 (the boundary, still computed), 15.01 and 16 (returned as-is)
    let xs = [
        dec(false, 149, 1),
        dec(false, 15, 0),
        dec(false, 1501, 2),
        dec(false, 16, 0),
    ];
    let mut prev: Option<Decimal> = None;
    for x in xs {
        let r = x.ln_1pe().unwrap();
        let v = to_decimal(&r);
        if let Some(p) = prev {
            assert!(p < v);
        }
        prev = Some(v);
    }
}

#[test]
fn ln_1pe_far_negative_surfaces_range_error() {
    // e^x for x = -1000 has no representable intermediate: an explicit error,
    // never a silently wrapped value
    let x = Dec::new(-1000, 0).unwrap();
    assert_eq!(x.ln_1pe(), Err(NumError::OutOfRange));
}

#[test]
fn rand_is_in_unit_interval_and_reproducible() {
    let mut rng = StdRng::seed_from_u64(42);
    let mut again = StdRng::seed_from_u64(42);
    for _ in 0..32 {
        let a = <Dec as RealNumber>::rand(&mut rng);
        let b = <Dec as RealNumber>::rand(&mut again);
        assert_eq!(a, b);
        assert!(!a.neg);
        assert!(a.mag < 1_000_000_000_000_000_000);
        assert_eq!(a.scale, 18);
        assert!(to_decimal(&a) < Decimal::ONE);
        assert!(to_decimal(&a) >= Decimal::ZERO);
    }
}

#[test]
fn unit_interval_from_bits_total() {
    for bits in [0u64, 1, 999_999_999_999_999_999, 1_000_000_000_000_000_000, u64::MAX] {
        let d = Dec::unit_interval_from_bits(bits);
        assert!(!d.neg);
        assert!(d.mag < 1_000_000_000_000_000_000);
        assert_eq!(d.scale, 18);
    }
    // the bits are not handed back unchanged: they are reduced to a fraction
    assert_eq!(
        Dec::unit_interval_from_bits(1_000_000_000_000_000_001).mag,
        1
    );
}

#[test]
fn to_f32_bits_is_unsupported() {
    let x = Dec::new(1, 0).unwrap();
    assert_eq!(x.to_f32_bits(), Err(NumError::Unsupported));
}

#[test]
fn constructors_reject_out_of_range_parts() {
    assert_eq!(Dec::new(1, 29), Err(NumError::OutOfRange));
    assert_eq!(
        Dec::from_parts(false, 79228162514264337593543950336, 0),
        Err(NumError::OutOfRange)
    );
    assert_eq!(Dec::from_parts(false, 1, 29), Err(NumError::OutOfRange));
    assert!(Dec::from_parts(true, 79228162514264337593543950335, 28).is_ok());
}

#[test]
fn new_handles_negative_mantissas() {
    let x = Dec::new(-25, 1).unwrap();
    assert_eq!(x, dec(true, 25, 1));
    assert_eq!(to_decimal(&x), Decimal::new(-25, 1));
    let min = Dec::new(i64::MIN, 0).unwrap();
    assert_eq!(to_decimal(&min), Decimal::from(i64::MIN));
}
