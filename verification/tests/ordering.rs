use hemofit::order::{fitness_is_le, in_range, is_nan, is_zero, gt_zero, lt_zero, le};

#[test]
fn le_agrees_with_numeric_order_on_ordinary_doubles() {
    // Distinct-magnitude finite doubles of both signs and both infinities;
    // the library order puts the negative zero strictly below the positive
    // zero, so only one zero is sampled here.
    let vals = [
        f64::NEG_INFINITY,
        -1.0e300,
        -830.0,
        -2.5,
        -0.029,
        0.0,
        1.0e-308,
        0.029,
        2.5,
        830.0,
        1.0e300,
        f64::INFINITY,
    ];
    for &a in &vals {
        for &b in &vals {
            assert_eq!(le(a.to_bits(), b.to_bits()), a <= b, "le({a}, {b})");
        }
    }
}

#[test]
fn nan_detection_matches_the_doubles() {
    assert!(is_nan(f64::NAN.to_bits()));
    assert!(is_nan((-f64::NAN).to_bits()));
    assert!(!is_nan(0.0f64.to_bits()));
    assert!(!is_nan(f64::INFINITY.to_bits()));
    assert!(!is_nan(f64::NEG_INFINITY.to_bits()));
    assert!(!is_nan(1.5f64.to_bits()));
}

#[test]
fn fitness_order_ranks_every_nan_worst() {
    let nan = f64::NAN.to_bits();
    let one = 1.0f64.to_bits();
    let inf = f64::INFINITY.to_bits();
    assert!(fitness_is_le(one, nan));
    assert!(!fitness_is_le(nan, one));
    assert!(fitness_is_le(inf, nan));
    assert!(fitness_is_le(nan, nan));
    assert!(fitness_is_le(one, inf));
}

#[test]
fn range_membership_is_the_closed_interval() {
    let lo = 0.5f64.to_bits();
    let hi = 4.0f64.to_bits();
    assert!(in_range(0.5f64.to_bits(), lo, hi));
    assert!(in_range(4.0f64.to_bits(), lo, hi));
    assert!(in_range(1.83f64.to_bits(), lo, hi));
    assert!(!in_range(0.4999f64.to_bits(), lo, hi));
    assert!(!in_range(4.0001f64.to_bits(), lo, hi));
}

#[test]
fn sign_predicates_match_the_doubles() {
    assert!(gt_zero(10.0f64.to_bits()));
    assert!(!gt_zero((-10.0f64).to_bits()));
    assert!(!gt_zero(0.0f64.to_bits()));
    assert!(!gt_zero((-0.0f64).to_bits()));
    assert!(!gt_zero(f64::NAN.to_bits()));
    assert!(lt_zero((-5.0f64).to_bits()));
    assert!(!lt_zero(5.0f64.to_bits()));
    assert!(!lt_zero((-0.0f64).to_bits()));
    assert!(!lt_zero(f64::NAN.to_bits()));
    assert!(is_zero(0.0f64.to_bits()));
    assert!(is_zero((-0.0f64).to_bits()));
    assert!(!is_zero(1.0e-300f64.to_bits()));
}
