use rt::scalar::Scalar;
use rt::vec3::Vec3;

fn s(x: f64) -> Scalar {
    Scalar::from_bits(x.to_bits())
}

fn samples() -> Vec<f64> {
    vec![
        0.0,
        -0.0,
        1.0,
        -1.0,
        0.5,
        1.5,
        0.001,
        0.999,
        1e-8,
        -1e-8,
        9.999999e-9,
        1e-300,
        -1e-300,
        5e-324,
        -5e-324,
        f64::MAX,
        f64::MIN,
        f64::INFINITY,
        f64::NEG_INFINITY,
        f64::NAN,
        -f64::NAN,
        f64::from_bits(0x7FF0_0000_0000_0001),
        f64::from_bits(0xFFFF_FFFF_FFFF_FFFF),
        255.0,
        -1.118033988749895,
    ]
}

#[test]
fn bits_round_trip() {
    for x in samples() {
        assert_eq!(s(x).to_bits(), x.to_bits());
    }
    assert_eq!(Scalar::zero().to_bits(), 0.0f64.to_bits());
    assert_eq!(Scalar::one().to_bits(), 1.0f64.to_bits());
}

#[test]
fn lt_is_the_numeric_order() {
    for a in samples() {
        for b in samples() {
            assert_eq!(s(a).lt(s(b)), a < b, "{a} < {b}");
            assert_eq!(s(a).gt(s(b)), a > b, "{a} > {b}");
        }
    }
}

#[test]
fn lt_on_signed_zeros_and_nan() {
    assert!(!s(-0.0).lt(s(0.0)));
    assert!(!s(0.0).lt(s(-0.0)));
    assert!(!s(f64::NAN).lt(s(1.0)));
    assert!(!s(1.0).lt(s(f64::NAN)));
    assert!(!s(f64::NAN).gt(s(1.0)));
    assert!(s(-5e-324).lt(s(0.0)));
    assert!(s(0.0).lt(s(5e-324)));
    assert!(s(f64::NEG_INFINITY).lt(s(f64::MIN)));
    assert!(s(f64::MAX).lt(s(f64::INFINITY)));
}

#[test]
fn total_key_is_the_total_order() {
    for a in samples() {
        for b in samples() {
            assert_eq!(
                s(a).total_key().cmp(&s(b).total_key()),
                a.total_cmp(&b),
                "{a} against {b}"
            );
        }
    }
}

#[test]
fn total_key_exact_values() {
    assert_eq!(s(0.0).total_key(), 0);
    assert_eq!(s(-0.0).total_key(), -1);
    assert_eq!(s(1.0).total_key(), 0x3FF0_0000_0000_0000);
    assert_eq!(s(-1.0).total_key(), -0x3FF0_0000_0000_0000 - 1);
    assert_eq!(s(f64::INFINITY).total_key(), 0x7FF0_0000_0000_0000);
    assert_eq!(Scalar::from_bits(u64::MAX).total_key(), i64::MIN);
    assert_eq!(Scalar::from_bits(0x7FFF_FFFF_FFFF_FFFF).total_key(), i64::MAX);
}

#[test]
fn abs_clears_the_sign() {
    for x in samples() {
        assert_eq!(s(x).abs().to_bits(), x.abs().to_bits());
    }
}

#[test]
fn is_nan_matches() {
    for x in samples() {
        assert_eq!(s(x).is_nan(), x.is_nan());
    }
}

#[test]
fn order_laws_on_samples() {
    for a in samples() {
        assert!(!s(a).lt(s(a)));
        for b in samples() {
            assert!(!(s(a).lt(s(b)) && s(b).lt(s(a))));
            if s(a).lt(s(b)) {
                assert!(s(a).total_key() < s(b).total_key());
            }
            if s(a).total_key() == s(b).total_key() {
                assert_eq!(a.to_bits(), b.to_bits());
            }
            for c in samples() {
                if s(a).lt(s(b)) && s(b).lt(s(c)) {
                    assert!(s(a).lt(s(c)));
                }
            }
        }
    }
}

#[test]
fn vec3_components() {
    let v = Vec3::new(s(1.0), s(-2.0), s(3.5));
    assert_eq!(v.x(), s(1.0));
    assert_eq!(v.y(), s(-2.0));
    assert_eq!(v.z(), s(3.5));
    assert_eq!(v, Vec3 { x: s(1.0), y: s(-2.0), z: s(3.5) });
}

#[test]
fn black_and_white() {
    assert_eq!(Vec3::black(), Vec3::new(s(0.0), s(0.0), s(0.0)));
    assert_eq!(Vec3::white(), Vec3::new(s(1.0), s(1.0), s(1.0)));
}

#[test]
fn near_zero_threshold() {
    let near = |x: f64, y: f64, z: f64| Vec3::new(s(x), s(y), s(z)).near_zero();
    assert!(near(0.0, 0.0, 0.0));
    assert!(near(-0.0, 9.9e-9, -9.9e-9));
    assert!(near(9.999999999999999e-9, 0.0, 0.0));
    assert!(!near(1e-8, 0.0, 0.0));
    assert!(!near(0.0, -1e-8, 0.0));
    assert!(!near(0.0, 0.0, 1.0));
    assert!(!near(f64::NAN, 0.0, 0.0));
    assert!(!near(0.0, 0.0, f64::INFINITY));
}

#[test]
fn near_zero_matches_the_formula() {
    for x in samples() {
        for y in [0.0, 1e-9, 1e-8, f64::NAN] {
            let expected = x.abs() < 1e-8 && y.abs() < 1e-8 && 0.0f64.abs() < 1e-8;
            assert_eq!(Vec3::new(s(x), s(y), s(0.0)).near_zero(), expected);
        }
    }
}

#[test]
fn rejection_sampling_accepts_inside_the_unit_ball() {
    assert!(Vec3::inside_unit_ball(s(0.0)));
    assert!(Vec3::inside_unit_ball(s(0.9999999999999999)));
    assert!(!Vec3::inside_unit_ball(s(1.0)));
    assert!(!Vec3::inside_unit_ball(s(2.5)));
    assert!(!Vec3::inside_unit_ball(s(f64::NAN)));
}

#[test]
fn hemisphere_keeps_or_flips() {
    let a = Vec3::new(s(0.1), s(0.2), s(0.3));
    let b = Vec3::new(s(-0.1), s(-0.2), s(-0.3));
    assert_eq!(a.in_hemisphere(b, s(0.5)), a);
    assert_eq!(a.in_hemisphere(b, s(-0.5)), b);
    assert_eq!(a.in_hemisphere(b, s(0.0)), b);
    assert_eq!(a.in_hemisphere(b, s(f64::NAN)), b);
}
