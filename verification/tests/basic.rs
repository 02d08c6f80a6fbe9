use tidal_engine::{Constituent, HarmonicPredictor, Station};

#[test]
fn station_holds_constituents() {
    let constituent = Constituent::new("M2", "1.2", "45.0");
    let station = Station::new(
        "test-station",
        "Test Station",
        "49.28",
        "-123.12",
        "0.0",
        vec![constituent.clone()],
    );

    assert_eq!(station.constituents, vec![constituent]);
}

#[test]
fn duplicates_are_equal() {
    let station = Station::new(
        "s",
        "S",
        "1",
        "2",
        "3",
        vec![Constituent::new("M2", "1", "0"), Constituent::new("K1", "0.5", "10")],
    );
    assert_eq!(station.duplicate(), station);
    assert_eq!(station.constituents[1].duplicate(), station.constituents[1]);
}

#[test]
fn unknown_constituents_have_no_species() {
    let station = Station::new(
        "s",
        "S",
        "1",
        "2",
        "3",
        vec![
            Constituent::new("m2", "1", "0"),
            Constituent::new("M4", "1", "0"),
            Constituent::new("LAMBDA2", "1", "0"),
        ],
    );
    let predictor = HarmonicPredictor::new(station);
    let species = predictor.constituent_species();
    assert_eq!(species.len(), 3);
    assert_eq!(species[0].unwrap().name, "M2");
    assert!(species[1].is_none());
    assert_eq!(species[2].unwrap().name, "lambda2");
}
