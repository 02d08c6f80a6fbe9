use tidal_engine::species::{find, species, NodalFactor, NodalPhase, SPECIES_COUNT};

#[test]
fn find_ignores_ascii_case() {
    let m2 = find("m2").unwrap();
    assert_eq!(m2.name, "M2");
    assert_eq!(m2.coefficients, [2, 0, 0, 0, 0, 0, 0]);
    assert_eq!(m2.u, NodalPhase::M2);
    assert_eq!(m2.f, NodalFactor::M2);
    assert_eq!(find("NU2").unwrap().name, "nu2");
    assert_eq!(find("ssa").unwrap().coefficients, [0, 0, 2, 0, 0, 0, 0]);
}

#[test]
fn unknown_names_are_not_found() {
    assert!(find("M4").is_none());
    assert!(find("").is_none());
    assert!(find("M2 ").is_none());
    assert!(find("ＭＲ").is_none());
}

#[test]
fn the_table_holds_each_name_once() {
    assert_eq!(SPECIES_COUNT, 24);
    for i in 0..SPECIES_COUNT {
        let sp = species(i);
        let found = find(sp.name).unwrap();
        assert_eq!(found.name, sp.name);
        assert_eq!(found.coefficients, sp.coefficients);
    }
}

#[test]
fn speeds_of_well_known_species_come_from_their_coefficients() {
    // Speeds (degrees/hour) of the spanning set [T+h-s, s, h, p, N, pp, 90]
    // at J2000.0; constituent speeds are their dot products with the
    // coefficients.
    let speeds = [
        14.492052120109104,
        0.5490165198977413,
        0.041068640006844626,
        0.004641813496577687,
        -0.002206406781770477,
        1.9610084417029628e-6,
        0.0,
    ];
    let speed_of = |name: &str| -> f64 {
        let sp = find(name).unwrap();
        sp.coefficients.iter().zip(speeds.iter()).map(|(c, s)| *c as f64 * s).sum()
    };
    let expected: &[(&str, f64)] = &[
        ("M2", 28.9841042),
        ("S2", 30.0000000),
        ("K1", 15.0410686),
        ("O1", 13.9430356),
        ("N2", 28.4397295),
        ("K2", 30.0821373),
        ("Q1", 13.3986609),
        ("P1", 14.9589314),
    ];
    for (name, want) in expected {
        let got = speed_of(name);
        assert!((got - want).abs() < 1e-4, "{name} speed: got {got}, want {want}");
    }
}
