//! Validated value types and the typed weather snapshot.
//!
//! Every quantity the wire carries as a decimal number is held in fixed
//! point, as thousandths of the written unit: a latitude of `44.34` degrees
//! is the integer `44_340`, a wind heading of `202` degrees is `202_000`.

use vstd::prelude::*;

verus! {

/// Units of measure a request can ask for.
#[derive(Debug, Clone, Copy, PartialEq, Eq)]
pub enum WeatherUnits {
    /// The provider's default when no unit parameter is sent.
    Standard,
    Imperial,
    Metric,
}

/// The query-string token each unit selector serializes to.
pub open spec fn spec_units_token(u: WeatherUnits) -> Seq<char> {
    match u {
        WeatherUnits::Standard => "standard"@,
        WeatherUnits::Imperial => "imperial"@,
        WeatherUnits::Metric => "metric"@,
    }
}

impl WeatherUnits {
    /// The lowercase token this selector writes into a request URL.
    pub fn token(&self) -> (r: &'static str)
        ensures
            r@ == spec_units_token(*self),
    {
        match self {
            WeatherUnits::Standard => "standard",
            WeatherUnits::Imperial => "imperial",
            WeatherUnits::Metric => "metric",
        }
    }
}

/// Geodetic coordinates: latitude and longitude, in thousandths of a degree.
#[derive(Debug, Clone, Copy, PartialEq, Eq)]
pub struct GeodeticCoords {
    /// Latitude of the location, thousandths of a degree.
    pub lat: i64,
    /// Longitude of the location, thousandths of a degree.
    pub lon: i64,
}

/// Why a coordinate pair was rejected; each variant carries the offending
/// value, in thousandths of a degree.
#[derive(Debug, Clone, Copy, PartialEq, Eq)]
pub enum GeodeticCoordsError {
    LatitudeOutOfRange(i64),
    LongitudeOutOfRange(i64),
}

/// Latitude must lie in [-90, 90] degrees.
pub open spec fn valid_latitude(lat: i64) -> bool {
    -90_000 <= lat <= 90_000
}

/// Longitude must lie in [-180, 180] degrees.
pub open spec fn valid_longitude(lon: i64) -> bool {
    -180_000 <= lon <= 180_000
}

impl GeodeticCoords {
    /// Creates a new [`GeodeticCoords`], rejecting out-of-range points.
    /// Latitude is checked first: if both are invalid, only the latitude
    /// error is reported.
    pub fn new_checked(lat: i64, lon: i64) -> (r: Result<GeodeticCoords, GeodeticCoordsError>)
        ensures
            !valid_latitude(lat) ==> r == Err::<GeodeticCoords, _>(
                GeodeticCoordsError::LatitudeOutOfRange(lat),
            ),
            valid_latitude(lat) && !valid_longitude(lon) ==> r == Err::<GeodeticCoords, _>(
                GeodeticCoordsError::LongitudeOutOfRange(lon),
            ),
            valid_latitude(lat) && valid_longitude(lon) ==> r == Ok::<_, GeodeticCoordsError>(
                GeodeticCoords { lat, lon },
            ),
    {
        if lat < -90_000 || lat > 90_000 {
            return Err(GeodeticCoordsError::LatitudeOutOfRange(lat));
        }
        if lon < -180_000 || lon > 180_000 {
            return Err(GeodeticCoordsError::LongitudeOutOfRange(lon));
        }
        Ok(GeodeticCoords { lat, lon })
    }
}

/// Points on a 16-wind compass rose, clockwise from true North.
#[derive(Debug, Clone, Copy, PartialEq, Eq)]
pub enum CompassPoint {
    North,
    NorthNorthEast,
    NorthEast,
    EastNorthEast,
    East,
    EastSouthEast,
    SouthEast,
    SouthSouthEast,
    South,
    SouthSouthWest,
    SouthWest,
    WestSouthWest,
    West,
    WestNorthWest,
    NorthWest,
    NorthNorthWest,
}

/// The English name of a compass point, as it is printed.
pub open spec fn spec_compass_label(p: CompassPoint) -> Seq<char> {
    match p {
        CompassPoint::North => "North"@,
        CompassPoint::NorthNorthEast => "NorthNorthEast"@,
        CompassPoint::NorthEast => "NorthEast"@,
        CompassPoint::EastNorthEast => "EastNorthEast"@,
        CompassPoint::East => "East"@,
        CompassPoint::EastSouthEast => "EastSouthEast"@,
        CompassPoint::SouthEast => "SouthEast"@,
        CompassPoint::SouthSouthEast => "SouthSouthEast"@,
        CompassPoint::South => "South"@,
        CompassPoint::SouthSouthWest => "SouthSouthWest"@,
        CompassPoint::SouthWest => "SouthWest"@,
        CompassPoint::WestSouthWest => "WestSouthWest"@,
        CompassPoint::West => "West"@,
        CompassPoint::WestNorthWest => "WestNorthWest"@,
        CompassPoint::NorthWest => "NorthWest"@,
        CompassPoint::NorthNorthWest => "NorthNorthWest"@,
    }
}

impl CompassPoint {
    /// The printable name of this compass point.
    pub fn label(&self) -> (r: &'static str)
        ensures
            r@ == spec_compass_label(*self),
    {
        match self {
            CompassPoint::North => "North",
            CompassPoint::NorthNorthEast => "NorthNorthEast",
            CompassPoint::NorthEast => "NorthEast",
            CompassPoint::EastNorthEast => "EastNorthEast",
            CompassPoint::East => "East",
            CompassPoint::EastSouthEast => "EastSouthEast",
            CompassPoint::SouthEast => "SouthEast",
            CompassPoint::SouthSouthEast => "SouthSouthEast",
            CompassPoint::South => "South",
            CompassPoint::SouthSouthWest => "SouthSouthWest",
            CompassPoint::SouthWest => "SouthWest",
            CompassPoint::WestSouthWest => "WestSouthWest",
            CompassPoint::West => "West",
            CompassPoint::WestNorthWest => "WestNorthWest",
            CompassPoint::NorthWest => "NorthWest",
            CompassPoint::NorthNorthWest => "NorthNorthWest",
        }
    }
}

/// A wind heading is valid when it lies in [0, 360) degrees: the half-open
/// convention of compass bearings, under which 360 itself is rejected.
pub open spec fn valid_wind_direction(deg: i64) -> bool {
    0 <= deg < 360_000
}

/// The compass point of a heading given in thousandths of a degree: sixteen
/// contiguous 22.5-degree-wide half-open sectors, clockwise from North at 0,
/// with the final sector a catch-all for every remaining heading.
pub open spec fn spec_compass_point(deg: i64) -> CompassPoint {
    if 0 <= deg < 22_500 {
        CompassPoint::North
    } else if 22_500 <= deg < 45_000 {
        CompassPoint::NorthNorthEast
    } else if 45_000 <= deg < 67_500 {
        CompassPoint::NorthEast
    } else if 67_500 <= deg < 90_000 {
        CompassPoint::EastNorthEast
    } else if 90_000 <= deg < 112_500 {
        CompassPoint::East
    } else if 112_500 <= deg < 135_000 {
        CompassPoint::EastSouthEast
    } else if 135_000 <= deg < 157_500 {
        CompassPoint::SouthEast
    } else if 157_500 <= deg < 180_000 {
        CompassPoint::SouthSouthEast
    } else if 180_000 <= deg < 202_500 {
        CompassPoint::South
    } else if 202_500 <= deg < 225_000 {
        CompassPoint::SouthSouthWest
    } else if 225_000 <= deg < 247_500 {
        CompassPoint::SouthWest
    } else if 247_500 <= deg < 270_000 {
        CompassPoint::WestSouthWest
    } else if 270_000 <= deg < 292_500 {
        CompassPoint::West
    } else if 292_500 <= deg < 315_000 {
        CompassPoint::WestNorthWest
    } else if 315_000 <= deg < 337_500 {
        CompassPoint::NorthWest
    } else {
        CompassPoint::NorthNorthWest
    }
}

/// The heading reflected by 180 degrees, wrapped back into [0, 360).
pub open spec fn spec_opposite_heading(deg: i64) -> i64 {
    if deg + 180_000 >= 360_000 {
        (deg + 180_000 - 360_000) as i64
    } else {
        (deg + 180_000) as i64
    }
}

/// A wind heading in thousandths of a degree, measured clockwise from true
/// North; by the meteorological convention it is the direction the wind
/// comes _from_.
#[derive(Debug, Clone, Copy)]
pub struct WindDirection(i64);

/// Why a wind heading was rejected; the variant carries the offending value,
/// in thousandths of a degree.
#[derive(Debug, Clone, Copy, PartialEq, Eq)]
pub enum WindDirectionError {
    InvalidDirection(i64),
}

impl WindDirection {
    /// The heading this value holds, in thousandths of a degree.
    pub closed spec fn deg(self) -> i64 {
        self.0
    }

    #[verifier::type_invariant]
    pub closed spec fn inv(self) -> bool {
        valid_wind_direction(self.0)
    }

    /// Validates that the heading falls inside the compass range of the
    /// meteorological convention, [0, 360) degrees.
    pub fn new_checked(deg: i64) -> (r: Result<Self, WindDirectionError>)
        ensures
            valid_wind_direction(deg) ==> r is Ok && r.unwrap().deg() == deg,
            !valid_wind_direction(deg) ==> r == Err::<Self, _>(
                WindDirectionError::InvalidDirection(deg),
            ),
    {
        if deg < 0 || deg >= 360_000 {
            return Err(WindDirectionError::InvalidDirection(deg));
        }
        Ok(WindDirection(deg))
    }

    /// Returns the compass point from which the wind is blowing.
    pub fn compass_point(&self) -> (r: CompassPoint)
        ensures
            r == spec_compass_point(self.deg()),
    {
        proof {
            use_type_invariant(self);
        }
        let d = self.0;
        if d < 22_500 {
            CompassPoint::North
        } else if d < 45_000 {
            CompassPoint::NorthNorthEast
        } else if d < 67_500 {
            CompassPoint::NorthEast
        } else if d < 90_000 {
            CompassPoint::EastNorthEast
        } else if d < 112_500 {
            CompassPoint::East
        } else if d < 135_000 {
            CompassPoint::EastSouthEast
        } else if d < 157_500 {
            CompassPoint::SouthEast
        } else if d < 180_000 {
            CompassPoint::SouthSouthEast
        } else if d < 202_500 {
            CompassPoint::South
        } else if d < 225_000 {
            CompassPoint::SouthSouthWest
        } else if d < 247_500 {
            CompassPoint::SouthWest
        } else if d < 270_000 {
            CompassPoint::WestSouthWest
        } else if d < 292_500 {
            CompassPoint::West
        } else if d < 315_000 {
            CompassPoint::WestNorthWest
        } else if d < 337_500 {
            CompassPoint::NorthWest
        } else {
            CompassPoint::NorthNorthWest
        }
    }

    /// Returns the compass point the wind is blowing towards: the stored
    /// heading rotated by 180 degrees, opposite to the meteorological
    /// convention.
    pub fn blowing_towards(&self) -> (r: CompassPoint)
        ensures
            r == spec_compass_point(spec_opposite_heading(self.deg())),
    {
        proof {
            use_type_invariant(self);
        }
        let tmp = self.0 + 180_000;
        let towards = if tmp >= 360_000 {
            tmp - 360_000
        } else {
            tmp
        };
        WindDirection(towards).compass_point()
    }
}

/// Rotating a valid heading by 180 degrees keeps it valid, and
/// `blowing_towards` agrees with `compass_point` at the rotated heading:
/// for every heading `h` in [0, 360), the wind's destination point is the
/// compass point of `(h + 180) mod 360`.
pub proof fn lemma_blowing_towards_is_rotation(deg: i64)
    requires
        valid_wind_direction(deg),
    ensures
        valid_wind_direction(spec_opposite_heading(deg)),
        spec_opposite_heading(deg) == (deg + 180_000) % 360_000,
        spec_compass_point(spec_opposite_heading(deg)) == spec_compass_point(
            ((deg + 180_000) % 360_000) as i64,
        ),
{
}

/// The sixteen compass sectors partition [0, 360): a valid heading `deg`
/// falls in sector `deg / 22.5`, so each sector is exactly 22.5 degrees
/// wide, they are contiguous, and the mapping is total on the valid range.
pub proof fn lemma_compass_sectors_partition(deg: i64)
    requires
        valid_wind_direction(deg),
    ensures
        spec_compass_point(deg) == spec_compass_index(deg / 22_500),
        0 <= deg / 22_500 < 16,
{
}

/// The compass point of the sector with the given index, clockwise from
/// North at index 0.
pub open spec fn spec_compass_index(sector: int) -> CompassPoint {
    if sector == 0 {
        CompassPoint::North
    } else if sector == 1 {
        CompassPoint::NorthNorthEast
    } else if sector == 2 {
        CompassPoint::NorthEast
    } else if sector == 3 {
        CompassPoint::EastNorthEast
    } else if sector == 4 {
        CompassPoint::East
    } else if sector == 5 {
        CompassPoint::EastSouthEast
    } else if sector == 6 {
        CompassPoint::SouthEast
    } else if sector == 7 {
        CompassPoint::SouthSouthEast
    } else if sector == 8 {
        CompassPoint::South
    } else if sector == 9 {
        CompassPoint::SouthSouthWest
    } else if sector == 10 {
        CompassPoint::SouthWest
    } else if sector == 11 {
        CompassPoint::WestSouthWest
    } else if sector == 12 {
        CompassPoint::West
    } else if sector == 13 {
        CompassPoint::WestNorthWest
    } else if sector == 14 {
        CompassPoint::NorthWest
    } else {
        CompassPoint::NorthNorthWest
    }
}

// ---------------------------------------------------------------------------
// The typed weather snapshot.
// ---------------------------------------------------------------------------

/// One weather condition descriptor; a response carries a list of them and
/// the first is primary.
#[derive(Debug, PartialEq, Eq)]
pub struct OWWeather {
    /// Condition id assigned by the provider.
    pub id: u32,
    /// Group of weather parameters (Rain, Snow, Clouds and so on).
    pub main: String,
    /// Condition within the group.
    pub description: String,
    /// Icon id.
    pub icon: String,
}

/// The mathematical view of an [`OWWeather`].
pub struct OWWeatherV {
    pub id: u32,
    pub main: Seq<char>,
    pub description: Seq<char>,
    pub icon: Seq<char>,
}

impl View for OWWeather {
    type V = OWWeatherV;

    open spec fn view(&self) -> OWWeatherV {
        OWWeatherV {
            id: self.id,
            main: self.main@,
            description: self.description@,
            icon: self.icon@,
        }
    }
}

/// Main atmospheric readings, each in thousandths of its unit.
#[derive(Debug, Clone, Copy, PartialEq, Eq)]
pub struct OWMain {
    /// Temperature; the unit depends on the requested unit system.
    pub temp: i64,
    /// Temperature as human perception accounts for it.
    pub feels_like: i64,
    /// Atmospheric pressure at sea level, hPa.
    pub pressure: i64,
    /// Humidity, percent.
    pub humidity: i64,
    /// Minimum currently observed temperature.
    pub temp_min: i64,
    /// Maximum currently observed temperature.
    pub temp_max: i64,
    /// Atmospheric pressure at sea level, hPa.
    pub sea_level: i64,
    /// Atmospheric pressure at ground level, hPa.
    pub grnd_level: i64,
}

/// Wind readings: speed and gust in thousandths of the unit the request
/// asked for, the direction a validated heading.
#[derive(Debug, Clone, Copy)]
pub struct OWWind {
    /// Wind speed.
    pub speed: i64,
    /// Wind direction, degrees, meteorological convention.
    pub deg: WindDirection,
    /// Wind gust; the provider omits it at times.
    pub gust: Option<i64>,
}

/// The mathematical view of an [`OWWind`], the heading unwrapped.
pub struct OWWindV {
    pub speed: i64,
    pub deg: i64,
    pub gust: Option<i64>,
}

impl View for OWWind {
    type V = OWWindV;

    open spec fn view(&self) -> OWWindV {
        OWWindV { speed: self.speed, deg: self.deg.deg(), gust: self.gust }
    }
}

/// Cloud cover, thousandths of a percent.
#[derive(Debug, Clone, Copy, PartialEq, Eq)]
pub struct OWClouds {
    /// Cloudiness, percent.
    pub all: i64,
}

/// Rain accumulation over the last hour, thousandths of a millimetre.
#[derive(Debug, Clone, Copy, PartialEq, Eq)]
pub struct OWRain {
    /// Precipitation, mm/h.
    pub _1h: i64,
}

/// Snow accumulation over the last hour, thousandths of a millimetre.
#[derive(Debug, Clone, Copy, PartialEq, Eq)]
pub struct OWSnow {
    /// Precipitation, mm/h.
    pub _1h: i64,
}

/// Country code and the sun's schedule, as instants in seconds since the
/// Unix epoch, UTC; both instants are validated as representable dates
/// during parsing.
#[derive(Debug, PartialEq, Eq)]
pub struct OWSys {
    /// Country code (GB, JP and so on).
    pub country: String,
    /// Sunrise, seconds since the Unix epoch, UTC.
    pub sunrise: i64,
    /// Sunset, seconds since the Unix epoch, UTC.
    pub sunset: i64,
}

/// The mathematical view of an [`OWSys`].
pub struct OWSysV {
    pub country: Seq<char>,
    pub sunrise: i64,
    pub sunset: i64,
}

impl View for OWSys {
    type V = OWSysV;

    open spec fn view(&self) -> OWSysV {
        OWSysV { country: self.country@, sunrise: self.sunrise, sunset: self.sunset }
    }
}

/// An instant together with the fixed UTC shift it is to be rendered in.
#[derive(Debug, Clone, Copy, PartialEq, Eq)]
pub struct LocalInstant {
    /// The instant, seconds since the Unix epoch, UTC.
    pub utc_seconds: i64,
    /// The fixed shift from UTC, seconds.
    pub offset_seconds: i32,
}

impl LocalInstant {
    /// The local wall-clock second count: the instant shifted by the
    /// offset.
    pub fn local_seconds(&self) -> (r: i64)
        requires
            -86_400 < self.offset_seconds < 86_400,
            0 <= self.utc_seconds <= i64::MAX - 86_400,
        ensures
            r == self.utc_seconds + self.offset_seconds,
    {
        self.utc_seconds + (self.offset_seconds as i64)
    }
}

/// Whether a second count names a representable UTC instant, as the date
/// library this crate defers to decides it.
pub uninterp spec fn utc_instant_representable(secs: i64) -> bool;

/// Relies on chrono::DateTime::from_timestamp: `Some` exactly on second
/// counts whose date is in range, and every count in
/// [0, 100_000_000_000) — the years 1970 through roughly 5138 — is.
#[verifier::external_body]
pub(crate) fn timestamp_in_range(secs: i64) -> (r: bool)
    ensures
        r == utc_instant_representable(secs),
        0 <= secs < 100_000_000_000 ==> r,
{
    chrono::DateTime::<chrono::Utc>::from_timestamp(secs, 0).is_some()
}

/// Relies on chrono::FixedOffset::east_opt: `Some` exactly when the shift
/// lies strictly between -86400 and 86400 seconds.
#[verifier::external_body]
pub(crate) fn utc_shift_in_range(secs: i32) -> (r: bool)
    ensures
        r == (-86_400 < secs && secs < 86_400),
{
    chrono::FixedOffset::east_opt(secs).is_some()
}

/// The complete current-weather response for one query, as one validated
/// record.
#[derive(Debug)]
pub struct OWCurrentWeatherResponse {
    /// The coordinate the provider answered for.
    pub coord: GeodeticCoords,
    /// Condition descriptors; the first entry is primary.
    pub weather: Vec<OWWeather>,
    /// Main atmospheric readings.
    pub main: OWMain,
    /// Visibility, metres; the provider caps it at 10 km.
    pub visibility: i64,
    /// Wind readings.
    pub wind: OWWind,
    /// Cloud cover.
    pub clouds: OWClouds,
    /// Rain over the last hour, when reported.
    pub rain: Option<OWRain>,
    /// Snow over the last hour, when reported.
    pub snow: Option<OWSnow>,
    /// Time of data calculation, seconds since the Unix epoch, UTC.
    pub dt: u64,
    /// Country and sun schedule.
    pub sys: OWSys,
    /// Shift of the queried place from UTC, seconds; validated as a
    /// representable fixed offset during parsing.
    pub timezone: i32,
    /// City id.
    pub id: u32,
    /// City name.
    pub name: String,
}

/// The views of a list of condition descriptors, element by element.
pub open spec fn weather_views(ws: Seq<OWWeather>) -> Seq<OWWeatherV> {
    Seq::new(
        ws.len(),
        |i: int|
            if 0 <= i < ws.len() {
                ws[i]@
            } else {
                OWWeatherV { id: 0, main: Seq::empty(), description: Seq::empty(), icon: Seq::empty() }
            },
    )
}

/// The mathematical view of a response.
pub struct OWCurrentWeatherResponseV {
    pub coord: GeodeticCoords,
    pub weather: Seq<OWWeatherV>,
    pub main: OWMain,
    pub visibility: i64,
    pub wind: OWWindV,
    pub clouds: OWClouds,
    pub rain: Option<OWRain>,
    pub snow: Option<OWSnow>,
    pub dt: u64,
    pub sys: OWSysV,
    pub timezone: i32,
    pub id: u32,
    pub name: Seq<char>,
}

impl View for OWCurrentWeatherResponse {
    type V = OWCurrentWeatherResponseV;

    open spec fn view(&self) -> OWCurrentWeatherResponseV {
        OWCurrentWeatherResponseV {
            coord: self.coord,
            weather: weather_views(self.weather@),
            main: self.main,
            visibility: self.visibility,
            wind: self.wind@,
            clouds: self.clouds,
            rain: self.rain,
            snow: self.snow,
            dt: self.dt,
            sys: self.sys@,
            timezone: self.timezone,
            id: self.id,
            name: self.name@,
        }
    }
}

impl OWCurrentWeatherResponse {
    /// The invariant parsing establishes: the UTC shift is a representable
    /// fixed offset and both sun instants are representable dates.
    pub open spec fn wf(&self) -> bool {
        &&& -86_400 < self.timezone < 86_400
        &&& utc_instant_representable(self.sys.sunrise)
        &&& utc_instant_representable(self.sys.sunset)
        &&& 0 <= self.sys.sunrise
        &&& 0 <= self.sys.sunset
    }

    /// The sunrise instant, paired with this snapshot's own UTC shift for
    /// local rendering.
    pub fn sunrise_local(&self) -> (r: LocalInstant)
        ensures
            r == (LocalInstant {
                utc_seconds: self.sys.sunrise,
                offset_seconds: self.timezone,
            }),
    {
        LocalInstant { utc_seconds: self.sys.sunrise, offset_seconds: self.timezone }
    }

    /// The sunset instant, paired with this snapshot's own UTC shift for
    /// local rendering.
    pub fn sunset_local(&self) -> (r: LocalInstant)
        ensures
            r == (LocalInstant {
                utc_seconds: self.sys.sunset,
                offset_seconds: self.timezone,
            }),
    {
        LocalInstant { utc_seconds: self.sys.sunset, offset_seconds: self.timezone }
    }
}

} // verus!
