use tidal_engine::locator::total_order_key;
use tidal_engine::{Station, StationLocator};

fn haversine_km(lat1: f64, lon1: f64, lat2: f64, lon2: f64) -> f64 {
    const EARTH_RADIUS_KM: f64 = 6371.0;
    let (lat1_r, lat2_r) = (lat1.to_radians(), lat2.to_radians());
    let d_lat = (lat2 - lat1).to_radians();
    let d_lon = (lon2 - lon1).to_radians();
    let a = (d_lat / 2.0).sin().powi(2) + lat1_r.cos() * lat2_r.cos() * (d_lon / 2.0).sin().powi(2);
    let c = 2.0 * a.sqrt().asin();
    EARTH_RADIUS_KM * c
}

fn distance_bits(locator: &StationLocator, latitude: f64, longitude: f64) -> Vec<u64> {
    locator
        .stations
        .iter()
        .map(|s| {
            let lat: f64 = s.latitude.parse().unwrap();
            let lon: f64 = s.longitude.parse().unwrap();
            haversine_km(latitude, longitude, lat, lon).to_bits()
        })
        .collect()
}

#[test]
fn nearest_picks_the_closer_of_two_stations() {
    let vancouver = Station::new("van", "Vancouver", "49.28", "-123.12", "0.0", vec![]);
    let victoria = Station::new("vic", "Victoria", "48.43", "-123.37", "0.0", vec![]);
    let locator = StationLocator::new(vec![vancouver, victoria]);

    // A point just north of Vancouver should find Vancouver, not Victoria.
    let d = distance_bits(&locator, 49.5, -123.1);
    let nearest = locator.nearest(&d).unwrap();
    assert_eq!(nearest.id, "van");
}

#[test]
fn nearest_is_none_when_no_stations() {
    let locator = StationLocator::new(vec![]);
    let d = distance_bits(&locator, 49.28, -123.12);
    assert!(locator.nearest(&d).is_none());
}

#[test]
fn ties_go_to_the_first_station() {
    let a = Station::new("a", "A", "0", "0", "0", vec![]);
    let b = Station::new("b", "B", "0", "0", "0", vec![]);
    let c = Station::new("c", "C", "0", "0", "0", vec![]);
    let locator = StationLocator::new(vec![a, b, c]);
    let d = vec![5.0f64.to_bits(), 2.0f64.to_bits(), 2.0f64.to_bits()];
    assert_eq!(locator.nearest_index(&d), Some(1));
    assert_eq!(locator.nearest(&d).unwrap().id, "b");
}

#[test]
fn keys_follow_the_total_order_of_floats() {
    let values = [
        -f64::NAN,
        f64::NEG_INFINITY,
        -1.0e300,
        -2.5,
        -f64::MIN_POSITIVE,
        -0.0,
        0.0,
        f64::MIN_POSITIVE,
        1.0,
        3.5e12,
        f64::INFINITY,
        f64::NAN,
    ];
    for x in values {
        for y in values {
            let expected = x.total_cmp(&y);
            let got = total_order_key(x.to_bits()).cmp(&total_order_key(y.to_bits()));
            assert_eq!(got, expected, "{x} vs {y}");
        }
    }
    assert_eq!(total_order_key(0.0f64.to_bits()), 0);
    assert_eq!(total_order_key((-0.0f64).to_bits()), -1);
}
