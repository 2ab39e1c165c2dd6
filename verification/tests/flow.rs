use hemofit::metrics::{metric_key_index, metric_name_of, N_METRICS};
use hemofit::valve::{valve_regime, ValveRegime, SEALED_VALVE_BITS};

#[test]
fn metric_names_round_trip() {
    for i in 0..N_METRICS {
        assert_eq!(metric_key_index(metric_name_of(i)), Some(i));
    }
    assert_eq!(metric_key_index("stroke_volume"), Some(0));
    assert_eq!(metric_key_index("left_ventricular_ejection_fraction"), Some(7));
    assert_eq!(metric_key_index("no_such_metric"), None);
    assert_eq!(metric_key_index(""), None);
}

#[test]
fn sealed_sentinel_encodes_the_documented_resistance() {
    assert_eq!(SEALED_VALVE_BITS, 100000.0f64.to_bits());
}

#[test]
fn an_open_forward_valve_is_linear() {
    // A forward gradient with no open variable resistance: the flow is the
    // plain quotient of gradient by opening resistance.
    let r = valve_regime(10.0f64.to_bits(), 0.0f64.to_bits(), SEALED_VALVE_BITS);
    assert_eq!(r, ValveRegime::ForwardLinear);
    let flow = match r {
        ValveRegime::ForwardLinear => 10.0 / 2.5,
        _ => unreachable!(),
    };
    assert_eq!(flow, 4.0);
}

#[test]
fn a_sealed_reverse_valve_is_linear() {
    // A reverse gradient against the sentinel closing resistance: the flow
    // is the gradient over the summed resistance.
    let r = valve_regime((-5.0f64).to_bits(), 0.0f64.to_bits(), SEALED_VALVE_BITS);
    assert_eq!(r, ValveRegime::ReverseLinear);
    let flow = match r {
        ValveRegime::ReverseLinear => -5.0 / (2.5 + 100000.0),
        _ => unreachable!(),
    };
    assert_eq!(flow, -5.0 / 100002.5);
}

#[test]
fn variable_resistances_select_the_quadratic_regimes() {
    let half = 0.5f64.to_bits();
    assert_eq!(
        valve_regime(10.0f64.to_bits(), half, SEALED_VALVE_BITS),
        ValveRegime::ForwardQuadratic
    );
    assert_eq!(
        valve_regime((-5.0f64).to_bits(), 0.0f64.to_bits(), half),
        ValveRegime::ReverseQuadratic
    );
    // A zero closing resistance is linear even in reverse.
    assert_eq!(
        valve_regime((-5.0f64).to_bits(), half, 0.0f64.to_bits()),
        ValveRegime::ReverseLinear
    );
    // A zero gradient is not forward; with the sentinel it stays quadratic
    // because the sealed test asks for a strictly negative gradient.
    assert_eq!(
        valve_regime(0.0f64.to_bits(), half, SEALED_VALVE_BITS),
        ValveRegime::ReverseQuadratic
    );
    // A NaN gradient is neither forward nor strictly negative.
    assert_eq!(
        valve_regime(f64::NAN.to_bits(), half, SEALED_VALVE_BITS),
        ValveRegime::ReverseQuadratic
    );
    assert_eq!(
        valve_regime(f64::NAN.to_bits(), half, 0.0f64.to_bits()),
        ValveRegime::ReverseLinear
    );
}
