use tidal_engine::numeral::is_float_literal_range;
use tidal_engine::text::chars_of;
use tidal_engine::{parse_station, ParseStationError};

fn float_ok(s: &str) -> bool {
    let v = chars_of(s);
    is_float_literal_range(&v, 0, v.len())
}

#[test]
fn parses_a_well_formed_station() {
    let text = "\
        id=7795\n\
        name=Point Atkinson\n\
        latitude=49.337\n\
        longitude=-123.253\n\
        datum_offset=2.97\n\
        # a comment, and a blank line follow\n\
        \n\
        M2 0.92 32.03\n\
        S2 0.22 71.15\n\
    ";
    let station = parse_station(text).unwrap();
    assert_eq!(station.id, "7795");
    assert_eq!(station.name, "Point Atkinson");
    assert_eq!(station.latitude.parse::<f64>().unwrap(), 49.337);
    assert_eq!(station.longitude.parse::<f64>().unwrap(), -123.253);
    assert_eq!(station.datum_offset.parse::<f64>().unwrap(), 2.97);
    assert_eq!(station.constituents.len(), 2);
    assert_eq!(station.constituents[0].name, "M2");
    assert_eq!(station.constituents[0].amplitude.parse::<f64>().unwrap(), 0.92);
    assert_eq!(station.constituents[0].phase_degrees.parse::<f64>().unwrap(), 32.03);
}

#[test]
fn missing_field_is_an_error_not_a_panic() {
    let text = "id=7795\nname=X\nlatitude=1.0\nlongitude=2.0\n";
    assert_eq!(
        parse_station(text),
        Err(ParseStationError::MissingField("datum_offset"))
    );
}

#[test]
fn malformed_constituent_line_is_an_error() {
    let text = "\
        id=1\nname=X\nlatitude=1.0\nlongitude=2.0\ndatum_offset=0.0\n\
        M2 not-a-number 32.0\n\
    ";
    assert!(matches!(
        parse_station(text),
        Err(ParseStationError::InvalidConstituentLine { .. })
    ));
}

#[test]
fn missing_fields_are_reported_in_field_order() {
    assert_eq!(parse_station(""), Err(ParseStationError::MissingField("id")));
    assert_eq!(
        parse_station("latitude=1\nid=a\n"),
        Err(ParseStationError::MissingField("name"))
    );
    assert_eq!(
        parse_station("id=a\nname=b\ndatum_offset=3\n"),
        Err(ParseStationError::MissingField("latitude"))
    );
    assert_eq!(
        parse_station("id=a\nname=b\nlatitude=3\n"),
        Err(ParseStationError::MissingField("longitude"))
    );
}

#[test]
fn invalid_header_number_names_field_and_line() {
    let text = "id=1\n\n# note\nlatitude=north\nlongitude=oops\n";
    assert_eq!(
        parse_station(text),
        Err(ParseStationError::InvalidNumber { field: "latitude", line: 4 })
    );
    assert_eq!(
        parse_station("longitude = 1.0.0"),
        Err(ParseStationError::InvalidNumber { field: "longitude", line: 1 })
    );
    assert_eq!(
        parse_station("a=b\r\ndatum_offset=\r\n"),
        Err(ParseStationError::InvalidNumber { field: "datum_offset", line: 2 })
    );
}

#[test]
fn first_error_line_wins_over_missing_fields() {
    let text = "id=1\nname=x\nM2 1.0\nlatitude=bad\n";
    assert_eq!(
        parse_station(text),
        Err(ParseStationError::InvalidConstituentLine { line: 3 })
    );
}

#[test]
fn headers_trim_repeat_and_ignore_unknown_keys() {
    let text = "  id = first  \r\nid= 42\nname =  Two  Words \nmystery=1=2\n\
                latitude=+1e3\nlongitude=-.5\ndatum_offset=inf\n\
                \tk1   0.1   -2.5  extra tokens\n";
    let station = parse_station(text).unwrap();
    assert_eq!(station.id, "42");
    assert_eq!(station.name, "Two  Words");
    assert_eq!(station.latitude, "+1e3");
    assert_eq!(station.longitude, "-.5");
    assert_eq!(station.datum_offset, "inf");
    assert_eq!(station.constituents.len(), 1);
    assert_eq!(station.constituents[0].name, "k1");
    assert_eq!(station.constituents[0].amplitude, "0.1");
    assert_eq!(station.constituents[0].phase_degrees, "-2.5");
}

#[test]
fn value_holding_equals_sign_keeps_the_rest_after_the_first() {
    let station =
        parse_station("id=a=b\nname=n\nlatitude=1\nlongitude=2\ndatum_offset=3").unwrap();
    assert_eq!(station.id, "a=b");
    assert!(station.constituents.is_empty());
}

#[test]
fn unicode_whitespace_is_trimmed_and_separates_tokens() {
    let text = "id=\u{3000}x\u{A0}\nname=n\nlatitude=1\nlongitude=2\ndatum_offset=3\nM2\u{2003}1\u{85}2\n";
    let station = parse_station(text).unwrap();
    assert_eq!(station.id, "x");
    assert_eq!(station.constituents[0].name, "M2");
    assert_eq!(station.constituents[0].phase_degrees, "2");
}

#[test]
fn numerals_follow_the_float_grammar() {
    for ok in [
        "0", "1.", ".5", "1.5", "+2", "-3e7", "4E-2", "5e+1", "inf", "-Infinity", "NaN", "+nan",
        "007", "1.e3",
    ] {
        assert!(float_ok(ok), "{ok} should be accepted");
        assert!(ok.parse::<f64>().is_ok(), "{ok} is a float literal");
    }
    for bad in [
        "", ".", "+", "e5", "1e", "1e+", "--1", "1.2.3", "1_000", " 1", "infin", "0x10", "1,5",
        "1e5.0", ".e1",
    ] {
        assert!(!float_ok(bad), "{bad} should be refused");
        assert!(bad.parse::<f64>().is_err(), "{bad} is no float literal");
    }
}

#[test]
fn each_error_has_a_message() {
    assert_eq!(
        ParseStationError::MissingField("id").message(),
        "missing required field: id"
    );
    assert_eq!(
        ParseStationError::InvalidNumber { field: "latitude", line: 1207 }.message(),
        "invalid number for latitude on line 1207"
    );
    assert_eq!(
        ParseStationError::InvalidConstituentLine { line: 0 }.message(),
        "invalid constituent line 0 (expected \"NAME AMPLITUDE PHASE\")"
    );
    assert_eq!(
        ParseStationError::InvalidConstituentLine { line: usize::MAX }.message(),
        format!("invalid constituent line {} (expected \"NAME AMPLITUDE PHASE\")", usize::MAX)
    );
}

#[test]
fn comment_and_blank_lines_change_nothing() {
    let plain = "id=1\nname=n\nlatitude=1\nlongitude=2\ndatum_offset=3\nM2 1 2\n";
    let noisy = "# head\n\nid=1\n   \nname=n\n#=not a header\nlatitude=1\nlongitude=2\n\t# x y z\ndatum_offset=3\nM2 1 2\n#";
    assert_eq!(parse_station(plain), parse_station(noisy));
    assert!(parse_station(plain).is_ok());
}

#[test]
fn blocks_of_ignored_lines_anywhere_change_nothing() {
    let plain = "id=1\nname=n\nlatitude=1\nlongitude=2\ndatum_offset=3\nM2 1 2\nS2 3 4";
    let noisy = "#a\n\n#b=c\nid=1\nname=n\n   \n# M2 1 2\n#x=y\nlatitude=1\nlongitude=2\ndatum_offset=3\nM2 1 2\n\t\n\nS2 3 4\n# after\n\n";
    assert_eq!(parse_station(plain), parse_station(noisy));
    assert_eq!(parse_station(plain).unwrap().constituents.len(), 2);
}

#[test]
fn an_ignored_line_after_an_unterminated_last_line_changes_nothing() {
    let plain = "id=1\nname=n\nlatitude=1\nlongitude=2\ndatum_offset=3\nM2 1 2\r";
    let appended = format!("{plain}\n# trailing note");
    assert_eq!(parse_station(plain), parse_station(&appended));
    assert!(parse_station(plain).is_ok());
}

#[test]
fn equality_compares_numerals_as_text() {
    let a = tidal_engine::parse_station("id=1\nname=n\nlatitude=1.0\nlongitude=2\ndatum_offset=3").unwrap();
    let b = tidal_engine::parse_station("id=1\nname=n\nlatitude=1\nlongitude=2\ndatum_offset=3").unwrap();
    assert_ne!(a, b);
    assert_eq!(a.latitude.parse::<f64>().unwrap(), b.latitude.parse::<f64>().unwrap());
}

#[test]
fn several_ignored_lines_after_an_unterminated_last_line_change_nothing() {
    let plain = "id=1\nname=n\nlatitude=1\nlongitude=2\ndatum_offset=3\nM2 1 2";
    for tail in ["\n# a\n\n  \n#b=c", "\n\n# M2 1 2\n", "\n\t\n# x\n"] {
        let noisy = format!("#top\n{plain}{tail}");
        assert_eq!(parse_station(plain), parse_station(&noisy), "{tail:?}");
    }
    let station = parse_station(plain).unwrap();
    for n in [&station.latitude, &station.longitude, &station.datum_offset] {
        assert!(n.parse::<f64>().is_ok());
    }
}
