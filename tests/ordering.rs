use snrt::binary32::Binary32;

fn b(v: f32) -> Binary32 {
    Binary32::from_bits(v.to_bits())
}

#[test]
fn less_than_follows_float_order() {
    let values = [-f32::INFINITY, -3.5, -1.0, -0.0, 0.0, 1e-40, 0.25, 1.0, 2.0, 1e30, f32::INFINITY, f32::NAN];
    for &x in values.iter() {
        for &y in values.iter() {
            assert_eq!(b(x).lt(&b(y)), x < y, "{} < {}", x, y);
            assert_eq!(b(x).le(&b(y)), x <= y, "{} <= {}", x, y);
        }
    }
}

#[test]
fn zeros_compare_equal() {
    assert!(!b(-0.0).lt(&b(0.0)));
    assert!(b(-0.0).le(&b(0.0)));
    assert!(b(0.0).le(&b(-0.0)));
    assert!(!b(-0.0).is_below_zero());
    assert!(!b(0.0).is_positive());
}

#[test]
fn nan_compares_with_nothing() {
    let nan = b(f32::NAN);
    assert!(nan.is_nan());
    assert!(!nan.lt(&b(1.0)));
    assert!(!b(1.0).lt(&nan));
    assert!(!nan.le(&nan));
    assert!(!b(f32::INFINITY).is_nan());
}

#[test]
fn min_and_max_skip_nan() {
    assert_eq!(b(-2.0).min(&b(3.0)).bits, (-2.0f32).to_bits());
    assert_eq!(b(-2.0).max(&b(3.0)).bits, 3.0f32.to_bits());
    assert_eq!(b(f32::NAN).min(&b(3.0)).bits, 3.0f32.to_bits());
    assert_eq!(b(3.0).max(&b(f32::NAN)).bits, 3.0f32.to_bits());
    assert_eq!(b(-f32::INFINITY).max(&b(-1.0)).bits, (-1.0f32).to_bits());
}

#[test]
fn abs_clears_the_sign() {
    assert_eq!(b(-4.5).abs().bits, 4.5f32.to_bits());
    assert_eq!(b(4.5).abs().bits, 4.5f32.to_bits());
    assert_eq!(b(-0.0).abs().bits, 0.0f32.to_bits());
}

#[test]
fn named_constants_match_their_values() {
    assert_eq!(Binary32::zero().bits, 0.0f32.to_bits());
    assert_eq!(Binary32::one().bits, 1.0f32.to_bits());
    assert_eq!(Binary32::max_finite().bits, f32::MAX.to_bits());
    assert!(b(0.5).is_positive());
    assert!(b(-0.5).is_below_zero());
}
