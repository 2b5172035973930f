//! Scalar arithmetic against the machine's own single-precision arithmetic.

use mesh_normals::Scalar;

fn scalar_of(x: f32) -> Scalar {
    Scalar::from_bits(x.to_bits())
}

fn float_of(s: Scalar) -> f32 {
    f32::from_bits(s.to_bits())
}

/// Equal bit for bit, or both NaN.
fn same_number(got: Scalar, want: f32) -> bool {
    if want.is_nan() {
        float_of(got).is_nan()
    } else {
        got.to_bits() == want.to_bits()
    }
}

fn samples() -> Vec<f32> {
    let mut out = vec![
        0.0,
        -0.0,
        1.0,
        -1.0,
        0.5,
        1.5,
        2.0,
        3.0,
        0.1,
        0.2,
        0.3,
        1.0000001,
        0.99999994,
        16777216.0,
        16777217.0,
        123456.79,
        -7.25,
        1e10,
        1e-10,
        1e38,
        3e38,
        -3e38,
        1e-38,
        1e-40,
        1e-45,
        -1e-45,
        f32::MIN_POSITIVE,
        f32::MAX,
        f32::MIN,
        f32::EPSILON,
        f32::INFINITY,
        f32::NEG_INFINITY,
        f32::NAN,
        std::f32::consts::PI,
        std::f32::consts::E,
        std::f32::consts::SQRT_2,
    ];
    // A fixed stream of bit patterns that covers all exponents.
    let mut state: u32 = 0x2545_f491;
    for _ in 0..160 {
        state ^= state << 13;
        state ^= state >> 17;
        state ^= state << 5;
        out.push(f32::from_bits(state));
    }
    out
}

/// A long fixed stream of pairs of bit patterns.
fn pairs(count: usize) -> Vec<(f32, f32)> {
    let mut out = Vec::with_capacity(count);
    let mut state: u64 = 0x853c_49e6_748f_ea9b;
    for _ in 0..count {
        state ^= state << 13;
        state ^= state >> 7;
        state ^= state << 17;
        out.push((f32::from_bits(state as u32), f32::from_bits((state >> 32) as u32)));
    }
    out
}

#[test]
fn arithmetic_matches_hardware_on_many_bit_patterns() {
    for (a, b) in pairs(50_000) {
        let (x, y) = (scalar_of(a), scalar_of(b));
        assert!(same_number(x.add(y), a + b), "{a:?} + {b:?}");
        assert!(same_number(x.sub(y), a - b), "{a:?} - {b:?}");
        assert!(same_number(x.mul(y), a * b), "{a:?} * {b:?}");
        assert!(same_number(x.div(y), a / b), "{a:?} / {b:?}");
        assert!(same_number(x.sqrt(), a.sqrt()), "sqrt {a:?}");
    }
}

#[test]
fn tiny_products_are_rounded_like_hardware() {
    for (a, b) in pairs(20_000) {
        // Scale both below 2^-50, so that the product is subnormal or zero.
        let a = a.abs().min(1.0) * 8.0e-16;
        let b = b.abs().min(1.0) * 8.0e-24;
        if a.is_nan() || b.is_nan() {
            continue;
        }
        assert_eq!(scalar_of(a).mul(scalar_of(b)).to_bits(), (a * b).to_bits());
    }
}

#[test]
fn constants_have_their_bit_patterns() {
    assert_eq!(Scalar::zero().to_bits(), 0.0f32.to_bits());
    assert_eq!(Scalar::one().to_bits(), 1.0f32.to_bits());
    assert_eq!(Scalar::neg_one().to_bits(), (-1.0f32).to_bits());
}

#[test]
fn bits_round_trip() {
    for x in samples() {
        assert_eq!(Scalar::from_bits(x.to_bits()).to_bits(), x.to_bits());
    }
}

#[test]
fn add_exact_values() {
    assert_eq!(float_of(scalar_of(1.5).add(scalar_of(2.25))), 3.75);
    assert_eq!(float_of(scalar_of(0.1).add(scalar_of(0.2))), 0.1f32 + 0.2f32);
    assert_eq!(float_of(scalar_of(16777216.0).add(scalar_of(1.0))), 16777216.0);
    assert_eq!(scalar_of(-0.0).add(scalar_of(-0.0)).to_bits(), (-0.0f32).to_bits());
    assert_eq!(scalar_of(1.0).add(scalar_of(-1.0)).to_bits(), 0.0f32.to_bits());
}

#[test]
fn add_matches_hardware() {
    let xs = samples();
    for &a in &xs {
        for &b in &xs {
            let got = scalar_of(a).add(scalar_of(b));
            assert!(same_number(got, a + b), "{a:?} + {b:?}");
        }
    }
}

#[test]
fn sub_exact_values() {
    assert_eq!(float_of(scalar_of(5.0).sub(scalar_of(1.5))), 3.5);
    assert_eq!(float_of(scalar_of(1.5).sub(scalar_of(5.0))), -3.5);
    assert_eq!(scalar_of(2.0).sub(scalar_of(2.0)).to_bits(), 0.0f32.to_bits());
}

#[test]
fn sub_matches_hardware() {
    let xs = samples();
    for &a in &xs {
        for &b in &xs {
            let got = scalar_of(a).sub(scalar_of(b));
            assert!(same_number(got, a - b), "{a:?} - {b:?}");
        }
    }
}

#[test]
fn mul_exact_values() {
    assert_eq!(float_of(scalar_of(1.5).mul(scalar_of(-4.0))), -6.0);
    assert_eq!(float_of(scalar_of(0.1).mul(scalar_of(0.1))), 0.1f32 * 0.1f32);
    assert_eq!(scalar_of(-1.0).mul(scalar_of(0.0)).to_bits(), (-0.0f32).to_bits());
    assert_eq!(float_of(scalar_of(3e38).mul(scalar_of(10.0))), f32::INFINITY);
}

#[test]
fn mul_matches_hardware() {
    let xs = samples();
    for &a in &xs {
        for &b in &xs {
            let got = scalar_of(a).mul(scalar_of(b));
            assert!(same_number(got, a * b), "{a:?} * {b:?}");
        }
    }
}

#[test]
fn div_exact_values() {
    assert_eq!(float_of(scalar_of(1.0).div(scalar_of(4.0))), 0.25);
    assert_eq!(float_of(scalar_of(1.0).div(scalar_of(3.0))), 1.0f32 / 3.0f32);
    assert_eq!(float_of(scalar_of(-6.0).div(scalar_of(1.5))), -4.0);
}

#[test]
fn div_by_zero_is_not_an_error() {
    assert_eq!(float_of(scalar_of(1.0).div(scalar_of(0.0))), f32::INFINITY);
    assert_eq!(float_of(scalar_of(-1.0).div(scalar_of(0.0))), f32::NEG_INFINITY);
    assert!(float_of(scalar_of(0.0).div(scalar_of(0.0))).is_nan());
}

#[test]
fn div_matches_hardware() {
    let xs = samples();
    for &a in &xs {
        for &b in &xs {
            let got = scalar_of(a).div(scalar_of(b));
            assert!(same_number(got, a / b), "{a:?} / {b:?}");
        }
    }
}

#[test]
fn sqrt_exact_values() {
    assert_eq!(float_of(scalar_of(25.0).sqrt()), 5.0);
    assert_eq!(float_of(scalar_of(2.0).sqrt()), std::f32::consts::SQRT_2);
    assert_eq!(scalar_of(0.0).sqrt().to_bits(), 0.0f32.to_bits());
    assert_eq!(scalar_of(-0.0).sqrt().to_bits(), (-0.0f32).to_bits());
    assert_eq!(float_of(scalar_of(f32::INFINITY).sqrt()), f32::INFINITY);
    assert!(float_of(scalar_of(-4.0).sqrt()).is_nan());
}

#[test]
fn sqrt_matches_hardware() {
    for a in samples() {
        let got = scalar_of(a).sqrt();
        assert!(same_number(got, a.sqrt()), "sqrt {a:?}");
    }
    let mut bits: u32 = 1;
    while bits < 0x7f80_0000 {
        let a = f32::from_bits(bits);
        assert!(same_number(scalar_of(a).sqrt(), a.sqrt()), "sqrt {a:?}");
        bits += 0x0000_2345;
    }
}
