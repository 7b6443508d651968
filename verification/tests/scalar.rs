use ray_tracer::scalar::Scalar;

fn s(x: f64) -> Scalar {
    Scalar::from_bits(x.to_bits())
}

fn samples() -> Vec<f64> {
    vec![
        0.0,
        -0.0,
        1.0,
        -1.0,
        0.001,
        -0.001,
        1e-8,
        -1e-8,
        0.999,
        2.5,
        -2.5,
        1e300,
        -1e300,
        f64::MIN_POSITIVE,
        -f64::MIN_POSITIVE,
        5e-324,
        -5e-324,
        f64::MAX,
        f64::MIN,
        f64::INFINITY,
        f64::NEG_INFINITY,
        f64::NAN,
        -f64::NAN,
        f64::from_bits(0x7FF0_0000_0000_0001),
        f64::from_bits(0xFFFF_FFFF_FFFF_FFFF),
        f64::EPSILON,
        1.0 + f64::EPSILON,
        1.0 - f64::EPSILON / 2.0,
    ]
}

#[test]
fn bits_round_trip() {
    for x in samples() {
        assert_eq!(s(x).to_bits(), x.to_bits());
        assert_eq!(Scalar::from_bits(x.to_bits()).bits, x.to_bits());
    }
}

#[test]
fn nan_is_told_from_numbers() {
    for x in samples() {
        assert_eq!(s(x).is_nan(), x.is_nan(), "{x}");
    }
}

#[test]
fn sign_is_read_from_the_sign_bit() {
    for x in samples() {
        assert_eq!(s(x).is_negative(), x.is_sign_negative(), "{x}");
    }
    assert!(s(-0.0).is_negative());
    assert!(!s(0.0).is_negative());
}

#[test]
fn magnitude_is_the_absolute_value() {
    for x in samples() {
        if !x.is_nan() {
            assert_eq!(s(x).magnitude_bits(), x.abs().to_bits(), "{x}");
        }
    }
}

#[test]
fn less_than_agrees_with_the_hardware() {
    for a in samples() {
        for b in samples() {
            assert_eq!(s(a).lt(s(b)), a < b, "{a} < {b}");
        }
    }
}

#[test]
fn at_most_agrees_with_the_hardware() {
    for a in samples() {
        for b in samples() {
            assert_eq!(s(a).le(s(b)), a <= b, "{a} <= {b}");
        }
    }
}

#[test]
fn greater_than_agrees_with_the_hardware() {
    for a in samples() {
        for b in samples() {
            assert_eq!(s(a).gt(s(b)), a > b, "{a} > {b}");
        }
    }
}

#[test]
fn at_least_agrees_with_the_hardware() {
    for a in samples() {
        for b in samples() {
            assert_eq!(s(a).ge(s(b)), a >= b, "{a} >= {b}");
        }
    }
}

#[test]
fn the_two_zeros_are_equal_in_order() {
    assert!(!s(-0.0).lt(s(0.0)));
    assert!(!s(0.0).lt(s(-0.0)));
    assert!(s(-0.0).le(s(0.0)));
    assert!(s(0.0).le(s(-0.0)));
}

#[test]
fn nan_is_in_no_relation() {
    let nan = s(f64::NAN);
    for x in samples() {
        assert!(!nan.lt(s(x)));
        assert!(!nan.le(s(x)));
        assert!(!nan.gt(s(x)));
        assert!(!nan.ge(s(x)));
        assert!(!s(x).lt(nan));
        assert!(!s(x).le(nan));
    }
}

#[test]
fn order_follows_a_dense_walk_through_the_bits() {
    // Neighbouring bit patterns are neighbouring values.
    let mut bits: u64 = 0;
    while bits < 0x7FF0_0000_0000_0000 {
        let next = bits + 0x0000_1234_5678_9ABD;
        if next <= 0x7FF0_0000_0000_0000 {
            let (a, b) = (f64::from_bits(bits), f64::from_bits(next));
            assert!(s(a).lt(s(b)));
            assert!(s(-b).lt(s(-a)));
            assert!(s(-a).le(s(a)));
        }
        bits = next;
    }
}

#[test]
fn negation_flips_the_sign() {
    for x in samples() {
        assert_eq!(s(x).neg().to_bits(), (-x).to_bits(), "{x}");
        if !x.is_nan() {
            assert_eq!(s(x).neg().to_bits(), (x * -1.0).to_bits(), "{x}");
        }
        assert_eq!(s(x).neg().neg(), s(x));
    }
}

#[test]
fn named_values_are_what_they_say() {
    assert_eq!(f64::from_bits(Scalar::zero().to_bits()), 0.0);
    assert_eq!(Scalar::zero().to_bits(), 0.0f64.to_bits());
    assert_eq!(Scalar::one().to_bits(), 1.0f64.to_bits());
    assert_eq!(Scalar::infinity().to_bits(), f64::INFINITY.to_bits());
    assert_eq!(ray_tracer::scalar::SIGN_BIT, (-0.0f64).to_bits());
    assert_eq!(ray_tracer::scalar::ONE_BITS, 1.0f64.to_bits());
    assert_eq!(ray_tracer::scalar::INFINITY_BITS, f64::INFINITY.to_bits());
    assert_eq!(ray_tracer::scalar::TWO_TO_THE_EIGHT_BITS, 256.0f64.to_bits());
    assert_eq!(ray_tracer::scalar::EXPONENT_UNIT, 1u64 << 52);
    assert_eq!(ray_tracer::scalar::EXPONENT_UNIT, f64::MIN_POSITIVE.to_bits());
}

#[test]
fn nothing_exceeds_infinity() {
    for x in samples() {
        if !x.is_nan() {
            assert!(s(x).le(Scalar::infinity()));
        }
    }
}

#[test]
fn absolute_value_clears_the_sign() {
    for x in samples() {
        assert_eq!(s(x).abs().to_bits(), x.abs().to_bits(), "{x}");
    }
}

#[test]
fn clamping_agrees_with_the_standard_library() {
    let bounds = [(0.0, 0.999), (-1.0, 1.0), (0.0, 0.0), (-0.0, 0.0), (1.0, f64::INFINITY), (f64::NEG_INFINITY, -2.5)];
    for (lo, hi) in bounds {
        for x in samples() {
            let got = s(x).clamp(s(lo), s(hi));
            let expected = x.clamp(lo, hi);
            if expected.is_nan() {
                assert!(got.is_nan(), "{x} in {lo}..{hi}");
            } else {
                assert_eq!(got.to_bits(), expected.to_bits(), "{x} in {lo}..{hi}");
            }
        }
    }
}

#[test]
fn whole_part_agrees_with_the_cast() {
    for x in samples() {
        assert_eq!(s(x).to_u8(), x as u8, "{x}");
    }
    let mut x = 0.0f64;
    while x < 300.0 {
        assert_eq!(s(x).to_u8(), x as u8, "{x}");
        assert_eq!(s(-x).to_u8(), (-x) as u8, "{x}");
        x += 0.037;
    }
    for k in 0..=256u32 {
        let whole = k as f64;
        for y in [whole, f64::from_bits(whole.to_bits() + 1), f64::from_bits((whole + 1.0).to_bits() - 1)] {
            assert_eq!(s(y).to_u8(), y as u8, "{y}");
        }
    }
    let mut bits: u64 = 0x3FE0_0000_0000_0000;
    while bits < 0x4080_0000_0000_0000 {
        let y = f64::from_bits(bits);
        assert_eq!(s(y).to_u8(), y as u8, "{y}");
        bits += 0x0000_0123_4567_89AB;
    }
}
