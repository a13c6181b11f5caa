//! Tests of the two-phase response parse: generic JSON first, typed
//! snapshot second, with the error taxonomy the library promises.

use open_weather::{
    parse_current_weather, parse_json, CompassPoint, GeodeticCoords, JsonValue, MapError,
    OpenWxError, WeatherUnits,
};

fn sample_document() -> &'static str {
    r#"
        {
        "coord": {
            "lon": 10.99,
            "lat": 44.34
        },
        "weather": [
            {
            "id": 803,
            "main": "Clouds",
            "description": "broken clouds",
            "icon": "04n"
            }
        ],
        "base": "stations",
        "main": {
            "temp": 281.29,
            "feels_like": 279.63,
            "temp_min": 279.38,
            "temp_max": 281.29,
            "pressure": 1024,
            "humidity": 95,
            "sea_level": 1024,
            "grnd_level": 956
        },
        "visibility": 10000,
        "wind": {
            "speed": 2.69,
            "deg": 202,
            "gust": 3.51
        },
        "clouds": {
            "all": 78
        },
        "dt": 1763077522,
        "sys": {
            "type": 2,
            "id": 2004688,
            "country": "IT",
            "sunrise": 1763100641,
            "sunset": 1763135429
        },
        "timezone": 3600,
        "id": 3163858,
        "name": "Zocca",
        "cod": 200
        }
        "#
}

#[test]
fn parse_open_weather_response() {
    let res = parse_current_weather(sample_document());
    assert!(res.is_ok())
}

#[test]
fn sample_document_fields() {
    let resp = parse_current_weather(sample_document()).unwrap();
    assert_eq!(resp.coord.lat, 44_340);
    assert_eq!(resp.coord.lon, 10_990);
    assert_eq!(resp.weather.len(), 1);
    assert_eq!(resp.weather[0].id, 803);
    assert_eq!(resp.weather[0].main, "Clouds");
    assert_eq!(resp.weather[0].description, "broken clouds");
    assert_eq!(resp.weather[0].icon, "04n");
    assert_eq!(resp.main.temp, 281_290);
    assert_eq!(resp.main.feels_like, 279_630);
    assert_eq!(resp.main.pressure, 1_024_000);
    assert_eq!(resp.main.humidity, 95_000);
    assert_eq!(resp.visibility, 10_000_000);
    assert_eq!(resp.wind.speed, 2_690);
    assert_eq!(resp.wind.gust, Some(3_510));
    assert_eq!(resp.clouds.all, 78_000);
    assert_eq!(resp.rain, None);
    assert_eq!(resp.snow, None);
    assert_eq!(resp.dt, 1763077522);
    assert_eq!(resp.sys.country, "IT");
    assert_eq!(resp.sys.sunrise, 1763100641);
    assert_eq!(resp.sys.sunset, 1763135429);
    assert_eq!(resp.timezone, 3600);
    assert_eq!(resp.id, 3163858);
    assert_eq!(resp.name, "Zocca");
}

#[test]
fn sample_document_derivations() {
    let resp = parse_current_weather(sample_document()).unwrap();

    let sunrise = resp.sunrise_local();
    assert_eq!(sunrise.utc_seconds, 1763100641);
    assert_eq!(sunrise.offset_seconds, 3600);
    assert_eq!(sunrise.local_seconds(), 1763100641 + 3600);

    let sunset = resp.sunset_local();
    assert_eq!(sunset.utc_seconds, 1763135429);
    assert_eq!(sunset.offset_seconds, 3600);
    assert_eq!(sunset.local_seconds(), 1763135429 + 3600);

    assert_eq!(resp.wind.deg.compass_point(), CompassPoint::South);
    assert_eq!(resp.wind.deg.blowing_towards(), CompassPoint::North);
}

#[test]
fn malformed_json_is_reported_as_malformed() {
    let cases = vec![
        "",
        "not json at all",
        "{",
        "{\"a\": }",
        "[1, 2,]",
        "{\"a\": 1,}",
        "\"unterminated",
        "{\"a\" 1}",
        "nulla-extra",
        "01",
        "1.",
        "- 5",
        "{\"a\": 1} trailing",
        "\"bad escape \\q\"",
        "\"bad unicode \\ud800\"",
        "1e",
        "1e+",
        "2.5e99999",
    ];
    for text in cases {
        match parse_current_weather(text) {
            Err(OpenWxError::MalformedResponseError) => {}
            other => panic!("expected a malformed-JSON error for {text:?}, got {other:?}"),
        }
    }
}

#[test]
fn missing_field_keeps_the_parsed_tree() {
    let text = r#"{"coord": {"lat": 1, "lon": 2}}"#;
    match parse_current_weather(text) {
        Err(OpenWxError::ResponseParseError {
            input_json,
            parse_error,
        }) => {
            assert_eq!(parse_error, MapError::MissingField("weather".to_string()));
            match input_json {
                JsonValue::Obj(members) => {
                    assert_eq!(members.len(), 1);
                    assert_eq!(members[0].0, "coord");
                }
                other => panic!("expected the parsed object back, got {other:?}"),
            }
        }
        other => panic!("expected a shape error, got {other:?}"),
    }
}

#[test]
fn wrong_field_type_is_a_shape_error() {
    let text = sample_document().replace("\"name\": \"Zocca\"", "\"name\": 7");
    match parse_current_weather(&text) {
        Err(OpenWxError::ResponseParseError { parse_error, .. }) => {
            assert_eq!(parse_error, MapError::WrongType("name".to_string()));
        }
        other => panic!("expected a shape error, got {other:?}"),
    }
}

#[test]
fn invalid_wind_heading_fails_the_parse() {
    let text = sample_document().replace("\"deg\": 202", "\"deg\": 361");
    match parse_current_weather(&text) {
        Err(OpenWxError::ResponseParseError { parse_error, .. }) => {
            assert!(matches!(parse_error, MapError::InvalidWindDirection(_)));
        }
        other => panic!("expected a wind-direction error, got {other:?}"),
    }
}

#[test]
fn invalid_timezone_shift_fails_the_parse() {
    let text = sample_document().replace("\"timezone\": 3600", "\"timezone\": 86400");
    match parse_current_weather(&text) {
        Err(OpenWxError::ResponseParseError { parse_error, .. }) => {
            assert_eq!(parse_error, MapError::InvalidTimezone(86_400));
        }
        other => panic!("expected a timezone error, got {other:?}"),
    }
}

#[test]
fn fractional_epoch_seconds_fail_the_parse() {
    let text = sample_document().replace("\"dt\": 1763077522", "\"dt\": 1763077522.5");
    match parse_current_weather(&text) {
        Err(OpenWxError::ResponseParseError { parse_error, .. }) => {
            assert_eq!(parse_error, MapError::WrongType("dt".to_string()));
        }
        other => panic!("expected a shape error, got {other:?}"),
    }
}

#[test]
fn absent_gust_and_present_rain_are_read() {
    let text = sample_document()
        .replace(
            "\"speed\": 2.69,\n            \"deg\": 202,\n            \"gust\": 3.51",
            "\"speed\": 2.69,\n            \"deg\": 202",
        )
        .replace(
            "\"clouds\": {\n            \"all\": 78\n        },",
            "\"clouds\": {\n            \"all\": 78\n        },\n        \"rain\": {\"1h\": 0.25},",
        );
    let resp = parse_current_weather(&text).unwrap();
    assert_eq!(resp.wind.gust, None);
    assert_eq!(resp.rain.map(|r| r._1h), Some(250));
    assert_eq!(resp.snow, None);
}

#[test]
fn transport_errors_are_distinct_from_parse_errors() {
    let transport = OpenWxError::HttpGetError("status 503".to_string());
    assert!(matches!(transport, OpenWxError::HttpGetError(_)));
    assert!(!matches!(transport, OpenWxError::MalformedResponseError));
    assert!(!matches!(
        transport,
        OpenWxError::ResponseParseError { .. }
    ));
}

#[test]
fn generic_json_parser_reads_escapes_and_nesting() {
    let v = parse_json("{\"k\": [true, false, null, \"a\\n\\u0041\\\"\", -2.75]}").unwrap();
    match v {
        JsonValue::Obj(members) => {
            assert_eq!(members.len(), 1);
            assert_eq!(members[0].0, "k");
            match &members[0].1 {
                JsonValue::Arr(items) => {
                    assert_eq!(items.len(), 5);
                    assert!(matches!(items[0], JsonValue::Bool(true)));
                    assert!(matches!(items[1], JsonValue::Bool(false)));
                    assert!(matches!(items[2], JsonValue::Null));
                    match &items[3] {
                        JsonValue::Str(s) => assert_eq!(s, "a\nA\""),
                        other => panic!("expected a string, got {other:?}"),
                    }
                    assert!(matches!(items[4], JsonValue::Num(-2750)));
                }
                other => panic!("expected an array, got {other:?}"),
            }
        }
        other => panic!("expected an object, got {other:?}"),
    }
}

#[test]
fn numbers_truncate_past_the_third_fractional_digit() {
    match parse_json("[1.2345, 0.0001, 10]").unwrap() {
        JsonValue::Arr(items) => {
            assert!(matches!(items[0], JsonValue::Num(1234)));
            assert!(matches!(items[1], JsonValue::Num(0)));
            assert!(matches!(items[2], JsonValue::Num(10_000)));
        }
        other => panic!("expected an array, got {other:?}"),
    }
}

#[test]
fn exponent_notation_is_read() {
    match parse_json("[1e3, 2.5e2, 1E-2, 25e-9, 1e+2, -3e1]").unwrap() {
        JsonValue::Arr(items) => {
            assert!(matches!(items[0], JsonValue::Num(1_000_000)));
            assert!(matches!(items[1], JsonValue::Num(250_000)));
            assert!(matches!(items[2], JsonValue::Num(10)));
            assert!(matches!(items[3], JsonValue::Num(0)));
            assert!(matches!(items[4], JsonValue::Num(100_000)));
            assert!(matches!(items[5], JsonValue::Num(-30_000)));
        }
        other => panic!("expected an array, got {other:?}"),
    }
    assert!(parse_json("1e19").is_none());
    assert!(parse_json("1e9999").is_none());
}

#[test]
fn oversized_numbers_are_rejected() {
    assert!(parse_json("123456789012345678901").is_none());
    assert!(parse_json("99999999999999999").is_none());
    assert!(parse_json("9007199254740991").is_some());
}

#[test]
fn nesting_past_the_depth_limit_is_rejected() {
    let deep = "[".repeat(200) + &"]".repeat(200);
    assert!(parse_json(&deep).is_none());
    let fine = "[".repeat(100) + &"]".repeat(100);
    assert!(parse_json(&fine).is_some());
}

#[test]
fn request_url_is_rendered_exactly() {
    let coords = GeodeticCoords::new_checked(33_545, -117_771).unwrap();
    let url = open_weather::open_weather_url(coords, WeatherUnits::Imperial, "SECRET-REDACTED");
    assert_eq!(
        url,
        "https://api.openweathermap.org/data/2.5/weather?lat=33.545&lon=-117.771&mode=json&units=imperial&appid=SECRET-REDACTED"
    );

    let whole = GeodeticCoords::new_checked(44_000, 10_990).unwrap();
    let url2 = open_weather::open_weather_url(whole, WeatherUnits::Metric, "k");
    assert_eq!(
        url2,
        "https://api.openweathermap.org/data/2.5/weather?lat=44&lon=10.99&mode=json&units=metric&appid=k"
    );
}

#[test]
fn unrepresentable_sun_instant_fails_the_parse() {
    let text = sample_document().replace("\"sunrise\": 1763100641", "\"sunrise\": 100000000000000");
    match parse_current_weather(&text) {
        Err(OpenWxError::ResponseParseError { parse_error, .. }) => {
            assert_eq!(parse_error, MapError::InvalidTimestamp(100_000_000_000_000));
        }
        other => panic!("expected a timestamp error, got {other:?}"),
    }
}

#[test]
fn oversized_city_id_is_a_shape_error() {
    let text = sample_document().replace("\"id\": 3163858,", "\"id\": 5000000000,");
    match parse_current_weather(&text) {
        Err(OpenWxError::ResponseParseError { parse_error, .. }) => {
            assert_eq!(parse_error, MapError::WrongType("id".to_string()));
        }
        other => panic!("expected a shape error, got {other:?}"),
    }
}
