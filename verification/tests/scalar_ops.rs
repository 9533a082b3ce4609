use airspeed_validator::extensions::FloatExt;
use airspeed_validator::scalar::Scalar;
use airspeed_validator::scalar::Wide;

fn s(x: f32) -> Scalar {
    Scalar { bits: x.to_bits() }
}

fn f(x: Scalar) -> f32 {
    f32::from_bits(x.bits)
}

fn w(x: f64) -> Wide {
    Wide { bits: x.to_bits() }
}

#[test]
fn it_works() {
    assert_eq!(2 + 2, 4);
}

#[test]
fn constrain_works() {
    let x = s(1.11f32);
    let first = x.constrain(s(4.0), s(6.0));
    assert_eq!(f(first), 4.);
    let second = x.constrain(s(0.), s(2.));
    assert_eq!(f(second), 1.11);
    let third = x.constrain(s(0.), s(1.111));
    assert_eq!(f(third), 1.11);
    let fourth = x.constrain(s(0.), s(1.1));
    assert_eq!(f(fourth), 1.1);
}

#[test]
fn constrain_with_nans() {
    let x = s(1.);
    let first = x.constrain(s(0.), s(f32::NAN));
    assert!(f(first).is_nan());
    let second = x.constrain(s(2.), s(f32::NAN));
    assert!(f(second).is_nan());

    let y = s(f32::NAN);
    assert!(f(y.constrain(s(1.0), s(2.0))).is_nan());
}

#[test]
fn constrain_keeps_in_range_value_bit_exact() {
    let x = s(1.11f32);
    let r = x.constrain(s(0.0), s(2.0));
    assert_eq!(r.bits, x.bits);
}

#[test]
fn scalar_order_matches_native_order() {
    let vals = [
        0.0f32,
        -0.0,
        1.0,
        -1.0,
        1.5,
        0.5,
        1e-40,
        -1e-40,
        3.4e38,
        f32::INFINITY,
        f32::NEG_INFINITY,
        f32::NAN,
    ];
    for &a in &vals {
        for &b in &vals {
            assert_eq!(s(a).eq_val(&s(b)), a == b);
            assert_eq!(s(a).lt_val(&s(b)), a < b);
            assert_eq!(s(a).le_val(&s(b)), a <= b);
            assert_eq!(s(a).gt_val(&s(b)), a > b);
            assert_eq!(s(a).ge_val(&s(b)), a >= b);
        }
    }
}

#[test]
fn scalar_zeroes_compare_equal() {
    assert!(s(-0.0).eq_val(&s(0.0)));
    assert!(!s(-0.0).lt_val(&s(0.0)));
    assert!(s(-0.0).le_val(&s(0.0)));
}

#[test]
fn scalar_nan_detection() {
    assert!(s(f32::NAN).is_nan());
    assert!(!s(f32::INFINITY).is_nan());
    assert!(!s(0.0).is_nan());
    assert!(w(f64::NAN).is_nan());
    assert!(!w(1.0).is_nan());
}

#[test]
fn wide_order_matches_native_order() {
    let vals = [0.0f64, -0.0, 0.01, 1.0, -1.0, 1e300, f64::INFINITY, f64::NEG_INFINITY, f64::NAN];
    for &a in &vals {
        for &b in &vals {
            assert_eq!(w(a).lt_val(&w(b)), a < b);
        }
    }
}

#[test]
fn constrain_matches_stated_semantics() {
    let vals = [
        0.0f32,
        -0.0,
        1.0,
        -1.0,
        2.5,
        -3.5,
        1e-40,
        f32::INFINITY,
        f32::NEG_INFINITY,
        f32::NAN,
    ];
    for &x in &vals {
        for &a in &vals {
            for &b in &vals {
                let r = f(s(x).constrain(s(a), s(b)));
                if x.is_nan() || a.is_nan() || b.is_nan() {
                    assert!(r.is_nan());
                } else if x >= a && x <= b {
                    assert_eq!(r.to_bits(), x.to_bits());
                } else if x > b {
                    assert_eq!(r.to_bits(), b.to_bits());
                } else {
                    assert_eq!(r.to_bits(), a.to_bits());
                }
            }
        }
    }
}
