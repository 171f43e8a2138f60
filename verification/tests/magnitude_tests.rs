use knot::magnitude::{Magnitude, HALF_BITS, INFINITY_BITS, NEGATIVE_ZERO_BITS, ONE_BITS};

fn magnitude_of(x: f64) -> Magnitude {
    Magnitude::from_bits(x.to_bits()).expect("a non-negative number")
}

#[test]
fn magnitude_orders_as_the_numbers_do() {
    let ladder = [0.0f64, 5e-324, 1e-300, 0.1, 0.5, 0.999_999, 1.0, 3.25, 1e10, 1e308, f64::INFINITY];
    for i in 0..ladder.len() {
        for j in 0..ladder.len() {
            let a = magnitude_of(ladder[i]);
            let b = magnitude_of(ladder[j]);
            assert_eq!(a.exceeds(b), ladder[i] > ladder[j]);
            assert_eq!(a == b, ladder[i] == ladder[j]);
            assert_eq!(a.smaller(b).to_bits(), ladder[i].min(ladder[j]).to_bits());
            assert_eq!(a.larger(b).to_bits(), ladder[i].max(ladder[j]).to_bits());
        }
    }
}

#[test]
fn magnitude_refuses_nan_and_negative_numbers() {
    assert_eq!(Magnitude::from_bits(f64::NAN.to_bits()), None);
    assert_eq!(Magnitude::from_bits((-1.0f64).to_bits()), None);
    assert_eq!(Magnitude::from_bits((-5e-324f64).to_bits()), None);
    assert_eq!(Magnitude::from_bits(f64::NEG_INFINITY.to_bits()), None);
    assert_eq!(Magnitude::from_bits(INFINITY_BITS + 1), None);
    assert_eq!(Magnitude::from_bits(u64::MAX), None);
}

#[test]
fn magnitude_reads_negative_zero_as_zero() {
    assert_eq!((-0.0f64).to_bits(), NEGATIVE_ZERO_BITS);
    let m = Magnitude::from_bits(NEGATIVE_ZERO_BITS).unwrap();
    assert_eq!(m, Magnitude::zero());
    assert_eq!(m.to_bits(), 0);
}

#[test]
fn magnitude_constants_are_the_patterns_of_their_numbers() {
    assert_eq!(Magnitude::zero().to_bits(), 0.0f64.to_bits());
    assert_eq!(Magnitude::half().to_bits(), 0.5f64.to_bits());
    assert_eq!(Magnitude::one().to_bits(), 1.0f64.to_bits());
    assert_eq!(Magnitude::infinity().to_bits(), f64::INFINITY.to_bits());
    assert_eq!(HALF_BITS, 0.5f64.to_bits());
    assert_eq!(ONE_BITS, 1.0f64.to_bits());
    assert_eq!(INFINITY_BITS, f64::INFINITY.to_bits());
}

#[test]
fn magnitude_gives_back_the_pattern_it_read() {
    for x in [0.0f64, 1e-12, 0.25, 1.0, 17.5, 6.02e23, f64::MAX, f64::INFINITY] {
        let m = magnitude_of(x);
        assert_eq!(m.to_bits(), x.to_bits());
        assert_eq!(f64::from_bits(m.to_bits()), x);
    }
}

#[test]
fn magnitude_tells_numbers_from_infinity() {
    assert!(magnitude_of(0.0).is_finite());
    assert!(magnitude_of(f64::MAX).is_finite());
    assert!(!magnitude_of(f64::INFINITY).is_finite());
    assert!(!Magnitude::infinity().is_finite());
    assert!(Magnitude::infinity().exceeds(magnitude_of(f64::MAX)));
    assert!(!Magnitude::infinity().exceeds(Magnitude::infinity()));
}
