use hemofit::parameters::{name_of, param_index, HemodynamicParams, Parameter, N_PARAMS};

fn get(params: &HemodynamicParams, name: &str) -> Parameter {
    let i = param_index(name).expect("known parameter");
    params.parameters[i]
}

#[test]
fn catalog_has_every_parameter_once() {
    let params = HemodynamicParams::new();
    assert_eq!(params.parameters.len(), N_PARAMS);
    for i in 0..N_PARAMS {
        assert_eq!(param_index(name_of(i)), Some(i));
    }
}

#[test]
fn catalog_defaults_match_the_model() {
    let params = HemodynamicParams::new();
    let expect = [
        ("Rcs", 830.0, 400.0, 1000.0, true),
        ("Rcp", 10.0, 5.0, 150.0, true),
        ("Ras", 20.0, 10.0, 450.0, true),
        ("Cas", 1.83, 0.5, 4.0, true),
        ("LV_Ees", 2.21, 1.0, 3.0, true),
        ("LV_alpha", 0.029, 0.02, 0.04, true),
        ("Qvs_initial", 749.9842973712131, 200.0, 6000.0, true),
        ("Rmv", 2.5, 2.5, 2.5, false),
        ("Cas_prox", 0.54, 0.54, 0.54, false),
        ("LV_Tmax", 300.0, 300.0, 300.0, false),
        ("LA_tau", 20.0, 20.0, 20.0, false),
        ("HR", 90.0, 90.0, 90.0, false),
        ("Ravr", 100000.0, 100000.0, 100000.0, false),
        ("Rtvs", 0.0, 0.0, 0.0, false),
        ("Cda", 0.52, 0.52, 0.52, false),
    ];
    for (name, default, lo, hi, fitting) in expect {
        let p = get(&params, name);
        assert_eq!(p.value, f64::to_bits(default), "{name} value");
        assert_eq!(p.default, f64::to_bits(default), "{name} default");
        assert_eq!(p.range.0, f64::to_bits(lo), "{name} lo");
        assert_eq!(p.range.1, f64::to_bits(hi), "{name} hi");
        assert_eq!(p.fitting, fitting, "{name} fitting");
    }
}

#[test]
fn catalog_defaults_lie_inside_their_ranges() {
    let params = HemodynamicParams::new();
    for p in &params.parameters {
        let v = f64::from_bits(p.value);
        let lo = f64::from_bits(p.range.0);
        let hi = f64::from_bits(p.range.1);
        assert!(lo <= v && v <= hi);
        assert_eq!(p.value, p.default);
    }
}

#[test]
fn update_changes_only_the_supplied_fields() {
    let mut params = HemodynamicParams::new();
    let before = get(&params, "Rcs");

    params.update("Rcs", Some(f64::to_bits(500.0)), None, None);
    let p = get(&params, "Rcs");
    assert_eq!(p.value, f64::to_bits(500.0));
    assert_eq!(p.default, before.default);
    assert_eq!(p.range, before.range);
    assert_eq!(p.fitting, before.fitting);

    params.update("Rcs", None, Some((f64::to_bits(450.0), f64::to_bits(900.0))), None);
    let p = get(&params, "Rcs");
    assert_eq!(p.value, f64::to_bits(500.0));
    assert_eq!(p.range, (f64::to_bits(450.0), f64::to_bits(900.0)));

    params.update("Rcs", None, None, Some(false));
    let p = get(&params, "Rcs");
    assert!(!p.fitting);
    assert_eq!(p.value, f64::to_bits(500.0));
}

#[test]
fn update_ignores_unknown_names() {
    let mut params = HemodynamicParams::new();
    let before: Vec<Parameter> = params.parameters.clone();
    params.update("NoSuchParameter", Some(f64::to_bits(1.0)), None, None);
    for (a, b) in before.iter().zip(params.parameters.iter()) {
        assert_eq!(a.value, b.value);
        assert_eq!(a.default, b.default);
        assert_eq!(a.range, b.range);
        assert_eq!(a.fitting, b.fitting);
    }
    assert_eq!(param_index("NoSuchParameter"), None);
}

#[test]
fn parameter_new_starts_at_its_default() {
    let p = Parameter::new(f64::to_bits(3.5), (f64::to_bits(1.0), f64::to_bits(9.0)), true);
    assert_eq!(p.value, f64::to_bits(3.5));
    assert_eq!(p.default, f64::to_bits(3.5));
    assert_eq!(p.range, (f64::to_bits(1.0), f64::to_bits(9.0)));
    assert!(p.fitting);
}
