//! Client library for a current-weather HTTP API: validated coordinate and
//! wind-direction types, a JSON document model with a verified parser, and
//! the mapping from parsed JSON to a strongly typed weather snapshot.

pub mod apis;
pub mod json;
pub mod types;

pub use apis::{open_weather_url, parse_current_weather, MapError, OpenWxError};
pub use json::{parse_json, JsonValue};
pub use types::{
    CompassPoint, GeodeticCoords, GeodeticCoordsError, LocalInstant, OWClouds,
    OWCurrentWeatherResponse, OWMain, OWRain, OWSnow, OWSys, OWWeather, OWWind, WeatherUnits,
    WindDirection, WindDirectionError,
};
