//! Tests of the validated value types: coordinates, wind headings and the
//! compass rose. Quantities are fixed point, in thousandths of a unit.

use open_weather::{
    CompassPoint, GeodeticCoords, GeodeticCoordsError, WeatherUnits, WindDirection,
    WindDirectionError,
};

#[test]
fn geodetic_coords_checked() {
    let bad_lat = GeodeticCoords::new_checked(180_000, 0);
    assert_eq!(
        bad_lat.unwrap_err(),
        GeodeticCoordsError::LatitudeOutOfRange(180_000)
    );

    let bad_lon = GeodeticCoords::new_checked(33_000, 190_000);
    assert_eq!(
        bad_lon.unwrap_err(),
        GeodeticCoordsError::LongitudeOutOfRange(190_000)
    );

    let valid_geo = GeodeticCoords::new_checked(33_000, -117_000);
    assert!(valid_geo.is_ok())
}

#[test]
fn latitude_is_checked_before_longitude() {
    let both_bad = GeodeticCoords::new_checked(-91_000, 999_000);
    assert_eq!(
        both_bad.unwrap_err(),
        GeodeticCoordsError::LatitudeOutOfRange(-91_000)
    );
}

#[test]
fn coords_round_trip_exact_values() {
    let c = GeodeticCoords::new_checked(44_340, 10_990).unwrap();
    assert_eq!(c.lat, 44_340);
    assert_eq!(c.lon, 10_990);

    let edge = GeodeticCoords::new_checked(90_000, -180_000).unwrap();
    assert_eq!(edge.lat, 90_000);
    assert_eq!(edge.lon, -180_000);
}

#[test]
fn wind_direction_bounds() {
    assert!(WindDirection::new_checked(0).is_ok());
    assert!(WindDirection::new_checked(359_999).is_ok());
    assert!(matches!(
        WindDirection::new_checked(360_000),
        Err(WindDirectionError::InvalidDirection(360_000))
    ));
    assert!(matches!(
        WindDirection::new_checked(-1),
        Err(WindDirectionError::InvalidDirection(-1))
    ));
}

#[test]
fn compass_points_partition_the_rose() {
    let cases: Vec<(i64, CompassPoint)> = vec![
        (0, CompassPoint::North),
        (22_499, CompassPoint::North),
        (22_500, CompassPoint::NorthNorthEast),
        (45_000, CompassPoint::NorthEast),
        (67_500, CompassPoint::EastNorthEast),
        (90_000, CompassPoint::East),
        (112_500, CompassPoint::EastSouthEast),
        (135_000, CompassPoint::SouthEast),
        (157_500, CompassPoint::SouthSouthEast),
        (180_000, CompassPoint::South),
        (202_000, CompassPoint::South),
        (202_500, CompassPoint::SouthSouthWest),
        (225_000, CompassPoint::SouthWest),
        (247_500, CompassPoint::WestSouthWest),
        (270_000, CompassPoint::West),
        (292_500, CompassPoint::WestNorthWest),
        (315_000, CompassPoint::NorthWest),
        (337_500, CompassPoint::NorthNorthWest),
        (359_900, CompassPoint::NorthNorthWest),
    ];
    for (deg, expected) in cases {
        let wd = WindDirection::new_checked(deg).unwrap();
        assert_eq!(wd.compass_point(), expected, "heading {deg}");
    }
}

#[test]
fn blowing_towards_is_a_half_turn() {
    let cases: Vec<(i64, CompassPoint)> = vec![
        (202_000, CompassPoint::North),
        (203_000, CompassPoint::NorthNorthEast),
        (0, CompassPoint::South),
        (180_000, CompassPoint::North),
        (359_900, CompassPoint::SouthSouthEast),
        (90_000, CompassPoint::West),
    ];
    for (deg, expected) in cases {
        let wd = WindDirection::new_checked(deg).unwrap();
        assert_eq!(wd.blowing_towards(), expected, "heading {deg}");
    }
}

#[test]
fn blowing_towards_matches_rotated_compass_point() {
    let mut deg: i64 = 0;
    while deg < 360_000 {
        let wd = WindDirection::new_checked(deg).unwrap();
        let rotated = WindDirection::new_checked((deg + 180_000) % 360_000).unwrap();
        assert_eq!(wd.blowing_towards(), rotated.compass_point());
        deg += 7_321;
    }
}

#[test]
fn compass_labels() {
    assert_eq!(CompassPoint::North.label(), "North");
    assert_eq!(CompassPoint::SouthSouthWest.label(), "SouthSouthWest");
    assert_eq!(CompassPoint::NorthNorthWest.label(), "NorthNorthWest");
}

#[test]
fn unit_tokens_serialize_lowercase() {
    assert_eq!(WeatherUnits::Standard.token(), "standard");
    assert_eq!(WeatherUnits::Imperial.token(), "imperial");
    assert_eq!(WeatherUnits::Metric.token(), "metric");
}
