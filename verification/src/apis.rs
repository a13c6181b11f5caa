//! The boundary with the weather provider: the request URL, the two-phase
//! response parse, and its error taxonomy.
//!
//! A response is first parsed into the generic [`JsonValue`] tree and then
//! mapped onto [`OWCurrentWeatherResponse`]; when the mapping fails, the
//! parsed tree is kept beside the mapping error so the payload can be
//! inspected without a second round trip.

use vstd::prelude::*;
use vstd::string::StringExecFns;

use crate::json::{member_trees_of, spec_document, JsonTree, JsonValue};
use crate::types::{
    utc_instant_representable, GeodeticCoords, OWClouds, OWCurrentWeatherResponse,
    OWCurrentWeatherResponseV, OWMain, OWRain, OWSnow, OWSys, OWSysV, OWWeather, OWWeatherV,
    OWWind, OWWindV, WindDirection, WindDirectionError,
};

verus! {

/// Why a syntactically valid JSON document failed to map onto the typed
/// snapshot.
#[derive(Debug, PartialEq, Eq)]
pub enum MapError {
    /// A required key was absent; carries the key.
    MissingField(String),
    /// A key held a value of the wrong type or out of the type's range;
    /// carries the key, or an empty string for the document itself.
    WrongType(String),
    /// The wind heading was outside [0, 360) degrees.
    InvalidWindDirection(WindDirectionError),
    /// The UTC shift was not a representable fixed offset; carries the
    /// shift in seconds.
    InvalidTimezone(i64),
    /// A sun instant was not a representable date; carries the second
    /// count.
    InvalidTimestamp(i64),
}

/// The mathematical view of a [`MapError`].
pub enum MapErrorV {
    MissingField(Seq<char>),
    WrongType(Seq<char>),
    InvalidWindDirection(WindDirectionError),
    InvalidTimezone(i64),
    InvalidTimestamp(i64),
}

impl View for MapError {
    type V = MapErrorV;

    open spec fn view(&self) -> MapErrorV {
        match self {
            MapError::MissingField(k) => MapErrorV::MissingField(k@),
            MapError::WrongType(k) => MapErrorV::WrongType(k@),
            MapError::InvalidWindDirection(e) => MapErrorV::InvalidWindDirection(*e),
            MapError::InvalidTimezone(v) => MapErrorV::InvalidTimezone(*v),
            MapError::InvalidTimestamp(v) => MapErrorV::InvalidTimestamp(*v),
        }
    }
}

/// Errors at the boundary with the weather provider.
#[derive(Debug)]
pub enum OpenWxError {
    /// The response was valid JSON of the wrong shape; the parsed tree is
    /// kept beside the mapping error for inspection.
    ResponseParseError { input_json: JsonValue, parse_error: MapError },
    /// The response was not valid JSON at all.
    MalformedResponseError,
    /// The HTTP round trip itself failed: a connection error or a non-2xx
    /// status; carries a description of the failure.
    HttpGetError(String),
}

// ---------------------------------------------------------------------------
// Looking fields up in a parsed object.
// ---------------------------------------------------------------------------

/// The value under `key` among object members: the first binding wins.
pub open spec fn obj_lookup(ms: Seq<(Seq<char>, JsonTree)>, key: Seq<char>) -> Option<JsonTree>
    decreases ms.len(),
{
    if ms.len() == 0 {
        None
    } else if ms[0].0 == key {
        Some(ms[0].1)
    } else {
        obj_lookup(ms.drop_first(), key)
    }
}

/// The member with `key` in a parsed object, if any.
fn obj_get<'a>(members: &'a Vec<(String, JsonValue)>, key: &String) -> (r: Option<&'a JsonValue>)
    ensures
        (match obj_lookup(member_trees_of(members@), key@) {
            None => r is None,
            Some(t) => r matches Some(v) && v.tree() == t,
        }),
{
    let ghost ts = member_trees_of(members@);
    proof {
        assert(ts.skip(0) =~= ts);
    }
    let mut t: usize = 0;
    while t < members.len()
        invariant
            t <= members@.len(),
            ts == member_trees_of(members@),
            obj_lookup(ts.skip(t as int), key@) == obj_lookup(ts, key@),
        decreases members@.len() - t,
    {
        if members[t].0 == *key {
            proof {
                assert(ts.skip(t as int)[0] == ts[t as int]);
            }
            return Some(&members[t].1);
        }
        proof {
            assert(ts.skip(t as int)[0] == ts[t as int]);
            assert(ts.skip(t as int).drop_first() =~= ts.skip(t + 1));
        }
        t = t + 1;
    }
    proof {
        assert(ts.skip(t as int).len() == 0);
    }
    None
}

// ---------------------------------------------------------------------------
// Reading one field of an expected kind.
// ---------------------------------------------------------------------------

/// The numeric field under `key`, in thousandths.
pub open spec fn want_num(ms: Seq<(Seq<char>, JsonTree)>, key: Seq<char>) -> Result<
    i64,
    MapErrorV,
> {
    match obj_lookup(ms, key) {
        None => Err(MapErrorV::MissingField(key)),
        Some(t) => match t {
            JsonTree::Num(n) => Ok(n),
            _ => Err(MapErrorV::WrongType(key)),
        },
    }
}

/// The string field under `key`.
pub open spec fn want_str(ms: Seq<(Seq<char>, JsonTree)>, key: Seq<char>) -> Result<
    Seq<char>,
    MapErrorV,
> {
    match obj_lookup(ms, key) {
        None => Err(MapErrorV::MissingField(key)),
        Some(t) => match t {
            JsonTree::Str(s) => Ok(s),
            _ => Err(MapErrorV::WrongType(key)),
        },
    }
}

/// The unsigned whole-number field under `key`: its thousandths must name
/// a whole number that fits the target.
pub open spec fn want_u64(ms: Seq<(Seq<char>, JsonTree)>, key: Seq<char>) -> Result<
    u64,
    MapErrorV,
> {
    match want_num(ms, key) {
        Err(e) => Err(e),
        Ok(n) => if n >= 0 && n % 1000 == 0 {
            Ok((n / 1000) as u64)
        } else {
            Err(MapErrorV::WrongType(key))
        },
    }
}

/// The unsigned whole-number field under `key`, within `u32`.
pub open spec fn want_u32(ms: Seq<(Seq<char>, JsonTree)>, key: Seq<char>) -> Result<
    u32,
    MapErrorV,
> {
    match want_u64(ms, key) {
        Err(e) => Err(e),
        Ok(n) => if n <= u32::MAX {
            Ok(n as u32)
        } else {
            Err(MapErrorV::WrongType(key))
        },
    }
}

/// The field under `key`, read as a whole number of seconds shifted from
/// UTC, within `i32`.
pub open spec fn want_shift(ms: Seq<(Seq<char>, JsonTree)>, key: Seq<char>) -> Result<
    i64,
    MapErrorV,
> {
    match want_num(ms, key) {
        Err(e) => Err(e),
        Ok(n) => if n % 1000 == 0 {
            Ok((n / 1000) as i64)
        } else {
            Err(MapErrorV::WrongType(key))
        },
    }
}

/// The numeric field under `key`, executably.
fn get_num(members: &Vec<(String, JsonValue)>, key: &str) -> (r: Result<i64, MapError>)
    ensures
        (match want_num(member_trees_of(members@), key@) {
            Ok(n) => r matches Ok(v) && v == n,
            Err(e) => r matches Err(me) && me@ == e,
        }),
{
    let k = key.to_owned();
    match obj_get(members, &k) {
        None => Err(MapError::MissingField(k)),
        Some(v) => match v {
            JsonValue::Num(n) => Ok(*n),
            _ => Err(MapError::WrongType(k)),
        },
    }
}

/// The string field under `key`, executably.
fn get_str(members: &Vec<(String, JsonValue)>, key: &str) -> (r: Result<String, MapError>)
    ensures
        (match want_str(member_trees_of(members@), key@) {
            Ok(s) => r matches Ok(v) && v@ == s,
            Err(e) => r matches Err(me) && me@ == e,
        }),
{
    let k = key.to_owned();
    match obj_get(members, &k) {
        None => Err(MapError::MissingField(k)),
        Some(v) => match v {
            JsonValue::Str(s) => Ok(s.clone()),
            _ => Err(MapError::WrongType(k)),
        },
    }
}

/// The unsigned whole-number field under `key`, executably.
fn get_u64(members: &Vec<(String, JsonValue)>, key: &str) -> (r: Result<u64, MapError>)
    ensures
        (match want_u64(member_trees_of(members@), key@) {
            Ok(n) => r matches Ok(v) && v == n,
            Err(e) => r matches Err(me) && me@ == e,
        }),
{
    match get_num(members, key) {
        Err(e) => Err(e),
        Ok(n) => if n >= 0 && n % 1000 == 0 {
            Ok((n / 1000) as u64)
        } else {
            Err(MapError::WrongType(key.to_owned()))
        },
    }
}

/// The unsigned whole-number field under `key` within `u32`, executably.
fn get_u32(members: &Vec<(String, JsonValue)>, key: &str) -> (r: Result<u32, MapError>)
    ensures
        (match want_u32(member_trees_of(members@), key@) {
            Ok(n) => r matches Ok(v) && v == n,
            Err(e) => r matches Err(me) && me@ == e,
        }),
{
    match get_u64(members, key) {
        Err(e) => Err(e),
        Ok(n) => if n <= 0xffff_ffff {
            Ok(n as u32)
        } else {
            Err(MapError::WrongType(key.to_owned()))
        },
    }
}

/// The whole-number-of-seconds field under `key`, executably.
fn get_shift(members: &Vec<(String, JsonValue)>, key: &str) -> (r: Result<i64, MapError>)
    ensures
        (match want_shift(member_trees_of(members@), key@) {
            Ok(n) => r matches Ok(v) && v == n,
            Err(e) => r matches Err(me) && me@ == e,
        }),
{
    match get_num(members, key) {
        Err(e) => Err(e),
        Ok(n) => if n % 1000 == 0 {
            Ok(n / 1000)
        } else {
            Err(MapError::WrongType(key.to_owned()))
        },
    }
}

// ---------------------------------------------------------------------------
// Mapping the parsed tree onto each nested structure.
// ---------------------------------------------------------------------------

/// The coordinate block of a response tree.
pub open spec fn coords_of(t: JsonTree) -> Result<GeodeticCoords, MapErrorV> {
    match t {
        JsonTree::Obj(ms) => match want_num(ms, "lat"@) {
            Err(e) => Err(e),
            Ok(lat) => match want_num(ms, "lon"@) {
                Err(e) => Err(e),
                Ok(lon) => Ok(GeodeticCoords { lat, lon }),
            },
        },
        _ => Err(MapErrorV::WrongType("coord"@)),
    }
}

/// One condition descriptor of a response tree.
pub open spec fn weather_item_of(t: JsonTree) -> Result<OWWeatherV, MapErrorV> {
    match t {
        JsonTree::Obj(ms) => match want_u32(ms, "id"@) {
            Err(e) => Err(e),
            Ok(id) => match want_str(ms, "main"@) {
                Err(e) => Err(e),
                Ok(main) => match want_str(ms, "description"@) {
                    Err(e) => Err(e),
                    Ok(description) => match want_str(ms, "icon"@) {
                        Err(e) => Err(e),
                        Ok(icon) => Ok(OWWeatherV { id, main, description, icon }),
                    },
                },
            },
        },
        _ => Err(MapErrorV::WrongType("weather"@)),
    }
}

/// Every condition descriptor of a response tree, in order; the first
/// failure wins.
pub open spec fn weather_list_of(ts: Seq<JsonTree>) -> Result<Seq<OWWeatherV>, MapErrorV>
    decreases ts.len(),
{
    if ts.len() == 0 {
        Ok(Seq::empty())
    } else {
        match weather_item_of(ts[0]) {
            Err(e) => Err(e),
            Ok(w) => match weather_list_of(ts.drop_first()) {
                Err(e) => Err(e),
                Ok(rest) => Ok(seq![w] + rest),
            },
        }
    }
}

/// The main atmospheric block of a response tree.
pub open spec fn main_of(t: JsonTree) -> Result<OWMain, MapErrorV> {
    match t {
        JsonTree::Obj(ms) => match want_num(ms, "temp"@) {
            Err(e) => Err(e),
            Ok(temp) => match want_num(ms, "feels_like"@) {
                Err(e) => Err(e),
                Ok(feels_like) => match want_num(ms, "pressure"@) {
                    Err(e) => Err(e),
                    Ok(pressure) => match want_num(ms, "humidity"@) {
                        Err(e) => Err(e),
                        Ok(humidity) => match want_num(ms, "temp_min"@) {
                            Err(e) => Err(e),
                            Ok(temp_min) => match want_num(ms, "temp_max"@) {
                                Err(e) => Err(e),
                                Ok(temp_max) => match want_num(ms, "sea_level"@) {
                                    Err(e) => Err(e),
                                    Ok(sea_level) => match want_num(ms, "grnd_level"@) {
                                        Err(e) => Err(e),
                                        Ok(grnd_level) => Ok(OWMain {
                                            temp,
                                            feels_like,
                                            pressure,
                                            humidity,
                                            temp_min,
                                            temp_max,
                                            sea_level,
                                            grnd_level,
                                        }),
                                    },
                                },
                            },
                        },
                    },
                },
            },
        },
        _ => Err(MapErrorV::WrongType("main"@)),
    }
}

/// An optional numeric member: absent and null both mean "not reported".
pub open spec fn opt_num_of(ms: Seq<(Seq<char>, JsonTree)>, key: Seq<char>) -> Result<
    Option<i64>,
    MapErrorV,
> {
    match obj_lookup(ms, key) {
        None => Ok(None),
        Some(t) => match t {
            JsonTree::Null => Ok(None),
            JsonTree::Num(n) => Ok(Some(n)),
            _ => Err(MapErrorV::WrongType(key)),
        },
    }
}

/// The wind block of a response tree; the heading must be a valid compass
/// bearing.
pub open spec fn wind_of(t: JsonTree) -> Result<OWWindV, MapErrorV> {
    match t {
        JsonTree::Obj(ms) => match want_num(ms, "speed"@) {
            Err(e) => Err(e),
            Ok(speed) => match want_num(ms, "deg"@) {
                Err(e) => Err(e),
                Ok(deg) => if !crate::types::valid_wind_direction(deg) {
                    Err(
                        MapErrorV::InvalidWindDirection(WindDirectionError::InvalidDirection(deg)),
                    )
                } else {
                    match opt_num_of(ms, "gust"@) {
                        Err(e) => Err(e),
                        Ok(gust) => Ok(OWWindV { speed, deg, gust }),
                    }
                },
            },
        },
        _ => Err(MapErrorV::WrongType("wind"@)),
    }
}

/// The cloud block of a response tree.
pub open spec fn clouds_of(t: JsonTree) -> Result<OWClouds, MapErrorV> {
    match t {
        JsonTree::Obj(ms) => match want_num(ms, "all"@) {
            Err(e) => Err(e),
            Ok(all) => Ok(OWClouds { all }),
        },
        _ => Err(MapErrorV::WrongType("clouds"@)),
    }
}

/// A precipitation block: the accumulation of the last hour, under the
/// wire key `1h`.
pub open spec fn precip_of(t: JsonTree, key: Seq<char>) -> Result<i64, MapErrorV> {
    match t {
        JsonTree::Obj(ms) => match want_num(ms, "1h"@) {
            Err(e) => Err(e),
            Ok(h) => Ok(h),
        },
        _ => Err(MapErrorV::WrongType(key)),
    }
}

/// The sys block of a response tree; both sun instants must be whole
/// nonnegative second counts naming representable dates.
pub open spec fn sys_of(t: JsonTree) -> Result<OWSysV, MapErrorV> {
    match t {
        JsonTree::Obj(ms) => match want_str(ms, "country"@) {
            Err(e) => Err(e),
            Ok(country) => match want_u64(ms, "sunrise"@) {
                Err(e) => Err(e),
                Ok(sunrise) => if !utc_instant_representable(sunrise as i64) {
                    Err(MapErrorV::InvalidTimestamp(sunrise as i64))
                } else {
                    match want_u64(ms, "sunset"@) {
                        Err(e) => Err(e),
                        Ok(sunset) => if !utc_instant_representable(sunset as i64) {
                            Err(MapErrorV::InvalidTimestamp(sunset as i64))
                        } else {
                            Ok(
                                OWSysV {
                                    country,
                                    sunrise: sunrise as i64,
                                    sunset: sunset as i64,
                                },
                            )
                        },
                    }
                },
            },
        },
        _ => Err(MapErrorV::WrongType("sys"@)),
    }
}

// ---------------------------------------------------------------------------
// Executable mapping, block by block.
// ---------------------------------------------------------------------------

/// Maps a tree onto the coordinate block.
fn map_coords(v: &JsonValue) -> (r: Result<GeodeticCoords, MapError>)
    ensures
        (match coords_of(v.tree()) {
            Ok(c) => r matches Ok(rc) && rc == c,
            Err(e) => r matches Err(me) && me@ == e,
        }),
{
    match v {
        JsonValue::Obj(ms) => {
            let lat = match get_num(ms, "lat") {
                Ok(n) => n,
                Err(e) => {
                    return Err(e);
                },
            };
            let lon = match get_num(ms, "lon") {
                Ok(n) => n,
                Err(e) => {
                    return Err(e);
                },
            };
            Ok(GeodeticCoords { lat, lon })
        },
        _ => Err(MapError::WrongType("coord".to_owned())),
    }
}

/// Maps a tree onto one condition descriptor.
fn map_weather_item(v: &JsonValue) -> (r: Result<OWWeather, MapError>)
    ensures
        (match weather_item_of(v.tree()) {
            Ok(w) => r matches Ok(rw) && rw@ == w,
            Err(e) => r matches Err(me) && me@ == e,
        }),
{
    match v {
        JsonValue::Obj(ms) => {
            let id = match get_u32(ms, "id") {
                Ok(n) => n,
                Err(e) => {
                    return Err(e);
                },
            };
            let main = match get_str(ms, "main") {
                Ok(s) => s,
                Err(e) => {
                    return Err(e);
                },
            };
            let description = match get_str(ms, "description") {
                Ok(s) => s,
                Err(e) => {
                    return Err(e);
                },
            };
            let icon = match get_str(ms, "icon") {
                Ok(s) => s,
                Err(e) => {
                    return Err(e);
                },
            };
            Ok(OWWeather { id, main, description, icon })
        },
        _ => Err(MapError::WrongType("weather".to_owned())),
    }
}

/// Maps every element of the weather array, in order.
fn map_weather_list(items: &Vec<JsonValue>) -> (r: Result<Vec<OWWeather>, MapError>)
    ensures
        (match weather_list_of(crate::json::trees_of(items@)) {
            Ok(ws) => r matches Ok(rv) && crate::types::weather_views(rv@) == ws,
            Err(e) => r matches Err(me) && me@ == e,
        }),
{
    let ghost ts = crate::json::trees_of(items@);
    proof {
        assert(ts.skip(0) =~= ts);
    }
    let mut acc: Vec<OWWeather> = Vec::new();
    let mut k: usize = 0;
    while k < items.len()
        invariant
            k <= items@.len(),
            ts == crate::json::trees_of(items@),
            (match weather_list_of(ts.skip(k as int)) {
                Ok(rest) => weather_list_of(ts) matches Ok(all) && all
                    == crate::types::weather_views(acc@) + rest,
                Err(e) => weather_list_of(ts) == Err::<Seq<OWWeatherV>, _>(e),
            }),
        decreases items@.len() - k,
    {
        proof {
            assert(ts.skip(k as int)[0] == ts[k as int]);
            assert(ts.skip(k as int).drop_first() =~= ts.skip(k + 1));
        }
        let ghost pre = acc@;
        match map_weather_item(&items[k]) {
            Ok(w) => {
                acc.push(w);
                proof {
                    assert(crate::types::weather_views(pre.push(w)) =~= crate::types::weather_views(
                        pre,
                    ) + seq![w@]);
                    if let Ok(rest2) = weather_list_of(ts.skip(k + 1)) {
                        assert((crate::types::weather_views(pre) + seq![w@]) + rest2
                            =~= crate::types::weather_views(pre) + (seq![w@] + rest2));
                    }
                }
                k = k + 1;
            },
            Err(e) => {
                return Err(e);
            },
        }
    }
    proof {
        assert(ts.skip(k as int).len() == 0);
        assert(crate::types::weather_views(acc@) + Seq::<OWWeatherV>::empty()
            =~= crate::types::weather_views(acc@));
    }
    Ok(acc)
}

/// Maps a tree onto the main atmospheric block.
fn map_main(v: &JsonValue) -> (r: Result<OWMain, MapError>)
    ensures
        (match main_of(v.tree()) {
            Ok(m) => r matches Ok(rm) && rm == m,
            Err(e) => r matches Err(me) && me@ == e,
        }),
{
    match v {
        JsonValue::Obj(ms) => {
            let temp = match get_num(ms, "temp") {
                Ok(n) => n,
                Err(e) => {
                    return Err(e);
                },
            };
            let feels_like = match get_num(ms, "feels_like") {
                Ok(n) => n,
                Err(e) => {
                    return Err(e);
                },
            };
            let pressure = match get_num(ms, "pressure") {
                Ok(n) => n,
                Err(e) => {
                    return Err(e);
                },
            };
            let humidity = match get_num(ms, "humidity") {
                Ok(n) => n,
                Err(e) => {
                    return Err(e);
                },
            };
            let temp_min = match get_num(ms, "temp_min") {
                Ok(n) => n,
                Err(e) => {
                    return Err(e);
                },
            };
            let temp_max = match get_num(ms, "temp_max") {
                Ok(n) => n,
                Err(e) => {
                    return Err(e);
                },
            };
            let sea_level = match get_num(ms, "sea_level") {
                Ok(n) => n,
                Err(e) => {
                    return Err(e);
                },
            };
            let grnd_level = match get_num(ms, "grnd_level") {
                Ok(n) => n,
                Err(e) => {
                    return Err(e);
                },
            };
            Ok(
                OWMain {
                    temp,
                    feels_like,
                    pressure,
                    humidity,
                    temp_min,
                    temp_max,
                    sea_level,
                    grnd_level,
                },
            )
        },
        _ => Err(MapError::WrongType("main".to_owned())),
    }
}

/// Reads an optional numeric member: absent and null both mean "not
/// reported".
fn get_opt_num(members: &Vec<(String, JsonValue)>, key: &str) -> (r: Result<Option<i64>, MapError>)
    ensures
        (match opt_num_of(member_trees_of(members@), key@) {
            Ok(n) => r matches Ok(v) && v == n,
            Err(e) => r matches Err(me) && me@ == e,
        }),
{
    let k = key.to_owned();
    match obj_get(members, &k) {
        None => Ok(None),
        Some(v) => match v {
            JsonValue::Null => Ok(None),
            JsonValue::Num(n) => Ok(Some(*n)),
            _ => Err(MapError::WrongType(k)),
        },
    }
}

/// Maps a tree onto the wind block, validating the heading.
fn map_wind(v: &JsonValue) -> (r: Result<OWWind, MapError>)
    ensures
        (match wind_of(v.tree()) {
            Ok(w) => r matches Ok(rw) && rw@ == w,
            Err(e) => r matches Err(me) && me@ == e,
        }),
{
    match v {
        JsonValue::Obj(ms) => {
            let speed = match get_num(ms, "speed") {
                Ok(n) => n,
                Err(e) => {
                    return Err(e);
                },
            };
            let raw_deg = match get_num(ms, "deg") {
                Ok(n) => n,
                Err(e) => {
                    return Err(e);
                },
            };
            let deg = match WindDirection::new_checked(raw_deg) {
                Ok(d) => d,
                Err(e) => {
                    return Err(MapError::InvalidWindDirection(e));
                },
            };
            let gust = match get_opt_num(ms, "gust") {
                Ok(g) => g,
                Err(e) => {
                    return Err(e);
                },
            };
            Ok(OWWind { speed, deg, gust })
        },
        _ => Err(MapError::WrongType("wind".to_owned())),
    }
}

/// Maps a tree onto the cloud block.
fn map_clouds(v: &JsonValue) -> (r: Result<OWClouds, MapError>)
    ensures
        (match clouds_of(v.tree()) {
            Ok(c) => r matches Ok(rc) && rc == c,
            Err(e) => r matches Err(me) && me@ == e,
        }),
{
    match v {
        JsonValue::Obj(ms) => {
            match get_num(ms, "all") {
                Ok(all) => Ok(OWClouds { all }),
                Err(e) => Err(e),
            }
        },
        _ => Err(MapError::WrongType("clouds".to_owned())),
    }
}

/// Maps a tree onto a precipitation block.
fn map_precip(v: &JsonValue, key: &str) -> (r: Result<i64, MapError>)
    ensures
        (match precip_of(v.tree(), key@) {
            Ok(h) => r matches Ok(rh) && rh == h,
            Err(e) => r matches Err(me) && me@ == e,
        }),
{
    match v {
        JsonValue::Obj(ms) => {
            match get_num(ms, "1h") {
                Ok(h) => Ok(h),
                Err(e) => Err(e),
            }
        },
        _ => Err(MapError::WrongType(key.to_owned())),
    }
}

/// Maps a tree onto the sys block, validating both sun instants through
/// the date library.
fn map_sys(v: &JsonValue) -> (r: Result<OWSys, MapError>)
    ensures
        (match sys_of(v.tree()) {
            Ok(s) => r matches Ok(rs) && rs@ == s,
            Err(e) => r matches Err(me) && me@ == e,
        }),
{
    match v {
        JsonValue::Obj(ms) => {
            let country = match get_str(ms, "country") {
                Ok(s) => s,
                Err(e) => {
                    return Err(e);
                },
            };
            let sunrise_u = match get_u64(ms, "sunrise") {
                Ok(n) => n,
                Err(e) => {
                    return Err(e);
                },
            };
            let sunrise = sunrise_u as i64;
            if !crate::types::timestamp_in_range(sunrise) {
                return Err(MapError::InvalidTimestamp(sunrise));
            }
            let sunset_u = match get_u64(ms, "sunset") {
                Ok(n) => n,
                Err(e) => {
                    return Err(e);
                },
            };
            let sunset = sunset_u as i64;
            if !crate::types::timestamp_in_range(sunset) {
                return Err(MapError::InvalidTimestamp(sunset));
            }
            Ok(OWSys { country, sunrise, sunset })
        },
        _ => Err(MapError::WrongType("sys".to_owned())),
    }
}

// ---------------------------------------------------------------------------
// The whole response.
// ---------------------------------------------------------------------------

/// The typed snapshot a response tree denotes, or the first mapping error,
/// fields being read in the snapshot's declaration order.
pub open spec fn snapshot_of(t: JsonTree) -> Result<OWCurrentWeatherResponseV, MapErrorV> {
    match t {
        JsonTree::Obj(ms) => match obj_lookup(ms, "coord"@) {
            None => Err(MapErrorV::MissingField("coord"@)),
            Some(ct) => match coords_of(ct) {
                Err(e) => Err(e),
                Ok(coord) => match obj_lookup(ms, "weather"@) {
                    None => Err(MapErrorV::MissingField("weather"@)),
                    Some(wt) => match wt {
                        JsonTree::Arr(items) => match weather_list_of(items) {
                            Err(e) => Err(e),
                            Ok(weather) => match obj_lookup(ms, "main"@) {
                                None => Err(MapErrorV::MissingField("main"@)),
                                Some(mt) => match main_of(mt) {
                                    Err(e) => Err(e),
                                    Ok(main) => match want_num(ms, "visibility"@) {
                                        Err(e) => Err(e),
                                        Ok(visibility) => match obj_lookup(ms, "wind"@) {
                                            None => Err(MapErrorV::MissingField("wind"@)),
                                            Some(wd) => match wind_of(wd) {
                                                Err(e) => Err(e),
                                                Ok(wind) => snapshot_of_rest(
                                                    ms,
                                                    coord,
                                                    weather,
                                                    main,
                                                    visibility,
                                                    wind,
                                                ),
                                            },
                                        },
                                    },
                                },
                            },
                        },
                        _ => Err(MapErrorV::WrongType("weather"@)),
                    },
                },
            },
        },
        _ => Err(MapErrorV::WrongType(Seq::empty())),
    }
}

/// The later fields of the snapshot: clouds, precipitation, time of
/// calculation, sys block, UTC shift, city id and name.
pub open spec fn snapshot_of_rest(
    ms: Seq<(Seq<char>, JsonTree)>,
    coord: GeodeticCoords,
    weather: Seq<OWWeatherV>,
    main: OWMain,
    visibility: i64,
    wind: OWWindV,
) -> Result<OWCurrentWeatherResponseV, MapErrorV> {
    match obj_lookup(ms, "clouds"@) {
        None => Err(MapErrorV::MissingField("clouds"@)),
        Some(cl) => match clouds_of(cl) {
            Err(e) => Err(e),
            Ok(clouds) => match opt_precip_of(ms, "rain"@) {
                Err(e) => Err(e),
                Ok(rain) => match opt_precip_of(ms, "snow"@) {
                    Err(e) => Err(e),
                    Ok(snow) => match want_u64(ms, "dt"@) {
                        Err(e) => Err(e),
                        Ok(dt) => match obj_lookup(ms, "sys"@) {
                            None => Err(MapErrorV::MissingField("sys"@)),
                            Some(st) => match sys_of(st) {
                                Err(e) => Err(e),
                                Ok(sys) => match want_shift(ms, "timezone"@) {
                                    Err(e) => Err(e),
                                    Ok(tz) => if !(-86_400 < tz < 86_400) {
                                        Err(MapErrorV::InvalidTimezone(tz))
                                    } else {
                                        match want_u32(ms, "id"@) {
                                            Err(e) => Err(e),
                                            Ok(id) => match want_str(ms, "name"@) {
                                                Err(e) => Err(e),
                                                Ok(name) => Ok(
                                                    OWCurrentWeatherResponseV {
                                                        coord,
                                                        weather,
                                                        main,
                                                        visibility,
                                                        wind,
                                                        clouds,
                                                        rain: match rain {
                                                            Some(h) => Some(OWRain { _1h: h }),
                                                            None => None,
                                                        },
                                                        snow: match snow {
                                                            Some(h) => Some(OWSnow { _1h: h }),
                                                            None => None,
                                                        },
                                                        dt,
                                                        sys,
                                                        timezone: tz as i32,
                                                        id,
                                                        name,
                                                    },
                                                ),
                                            },
                                        }
                                    },
                                },
                            },
                        },
                    },
                },
            },
        },
    }
}

/// An optional precipitation block at the top level: absent and null both
/// mean "no precipitation reported".
pub open spec fn opt_precip_of(ms: Seq<(Seq<char>, JsonTree)>, key: Seq<char>) -> Result<
    Option<i64>,
    MapErrorV,
> {
    match obj_lookup(ms, key) {
        None => Ok(None),
        Some(t) => match t {
            JsonTree::Null => Ok(None),
            _ => match precip_of(t, key) {
                Err(e) => Err(e),
                Ok(h) => Ok(Some(h)),
            },
        },
    }
}

/// Maps a parsed document onto the typed snapshot, or reports the first
/// mismatch; on success the snapshot is well formed.
fn map_response(v: &JsonValue) -> (r: Result<OWCurrentWeatherResponse, MapError>)
    ensures
        (match snapshot_of(v.tree()) {
            Ok(sv) => r matches Ok(resp) && resp@ == sv && resp.wf(),
            Err(e) => r matches Err(me) && me@ == e,
        }),
{
    let ms = match v {
        JsonValue::Obj(ms) => ms,
        _ => {
            return Err(MapError::WrongType(String::new()));
        },
    };
    let k_coord = "coord".to_owned();
    let coord = match obj_get(ms, &k_coord) {
        None => {
            return Err(MapError::MissingField(k_coord));
        },
        Some(ct) => match map_coords(ct) {
            Ok(c) => c,
            Err(e) => {
                return Err(e);
            },
        },
    };
    let k_weather = "weather".to_owned();
    let weather = match obj_get(ms, &k_weather) {
        None => {
            return Err(MapError::MissingField(k_weather));
        },
        Some(wt) => match wt {
            JsonValue::Arr(items) => match map_weather_list(items) {
                Ok(ws) => ws,
                Err(e) => {
                    return Err(e);
                },
            },
            _ => {
                return Err(MapError::WrongType(k_weather));
            },
        },
    };
    let k_main = "main".to_owned();
    let main = match obj_get(ms, &k_main) {
        None => {
            return Err(MapError::MissingField(k_main));
        },
        Some(mt) => match map_main(mt) {
            Ok(m) => m,
            Err(e) => {
                return Err(e);
            },
        },
    };
    let visibility = match get_num(ms, "visibility") {
        Ok(n) => n,
        Err(e) => {
            return Err(e);
        },
    };
    let k_wind = "wind".to_owned();
    let wind = match obj_get(ms, &k_wind) {
        None => {
            return Err(MapError::MissingField(k_wind));
        },
        Some(wd) => match map_wind(wd) {
            Ok(w) => w,
            Err(e) => {
                return Err(e);
            },
        },
    };
    let k_clouds = "clouds".to_owned();
    let clouds = match obj_get(ms, &k_clouds) {
        None => {
            return Err(MapError::MissingField(k_clouds));
        },
        Some(cl) => match map_clouds(cl) {
            Ok(c) => c,
            Err(e) => {
                return Err(e);
            },
        },
    };
    let k_rain = "rain".to_owned();
    let rain = match obj_get(ms, &k_rain) {
        None => None,
        Some(rt) => match rt {
            JsonValue::Null => None,
            _ => match map_precip(rt, "rain") {
                Ok(h) => Some(OWRain { _1h: h }),
                Err(e) => {
                    return Err(e);
                },
            },
        },
    };
    let k_snow = "snow".to_owned();
    let snow = match obj_get(ms, &k_snow) {
        None => None,
        Some(st) => match st {
            JsonValue::Null => None,
            _ => match map_precip(st, "snow") {
                Ok(h) => Some(OWSnow { _1h: h }),
                Err(e) => {
                    return Err(e);
                },
            },
        },
    };
    let dt = match get_u64(ms, "dt") {
        Ok(n) => n,
        Err(e) => {
            return Err(e);
        },
    };
    let k_sys = "sys".to_owned();
    let sys = match obj_get(ms, &k_sys) {
        None => {
            return Err(MapError::MissingField(k_sys));
        },
        Some(st) => match map_sys(st) {
            Ok(s) => s,
            Err(e) => {
                return Err(e);
            },
        },
    };
    let tz = match get_shift(ms, "timezone") {
        Ok(n) => n,
        Err(e) => {
            return Err(e);
        },
    };
    if tz <= -2_147_483_648 || tz >= 2_147_483_648 {
        return Err(MapError::InvalidTimezone(tz));
    }
    if !crate::types::utc_shift_in_range(tz as i32) {
        return Err(MapError::InvalidTimezone(tz));
    }
    let id = match get_u32(ms, "id") {
        Ok(n) => n,
        Err(e) => {
            return Err(e);
        },
    };
    let name = match get_str(ms, "name") {
        Ok(s) => s,
        Err(e) => {
            return Err(e);
        },
    };
    Ok(
        OWCurrentWeatherResponse {
            coord,
            weather,
            main,
            visibility,
            wind,
            clouds,
            rain,
            snow,
            dt,
            sys,
            timezone: tz as i32,
            id,
            name,
        },
    )
}

/// Parses the text of a current-weather response: first as generic JSON,
/// then mapped onto the typed snapshot. Text that is not JSON is reported
/// as malformed; valid JSON of the wrong shape is reported with the parsed
/// tree kept beside the mapping error.
pub fn parse_current_weather(text: &str) -> (r: Result<OWCurrentWeatherResponse, OpenWxError>)
    ensures
        (match spec_document(text@) {
            None => r matches Err(e) && e is MalformedResponseError,
            Some(t) => (match snapshot_of(t) {
                Ok(sv) => r matches Ok(resp) && resp@ == sv && resp.wf(),
                Err(e) => r matches Err(oe) && oe matches OpenWxError::ResponseParseError {
                    input_json,
                    parse_error,
                } && input_json.tree() == t && parse_error@ == e,
            }),
        }),
{
    match crate::json::parse_json(text) {
        None => Err(OpenWxError::MalformedResponseError),
        Some(v) => match map_response(&v) {
            Ok(resp) => Ok(resp),
            Err(e) => Err(OpenWxError::ResponseParseError { input_json: v, parse_error: e }),
        },
    }
}

// ---------------------------------------------------------------------------
// The request URL.
// ---------------------------------------------------------------------------

/// The character of one decimal digit.
pub open spec fn digit_char(d: int) -> char {
    ((48 + d) as u8) as char
}

/// The decimal numeral of a nonnegative number, most significant digit
/// first.
pub open spec fn dec_digits(n: nat) -> Seq<char>
    decreases n,
{
    if n < 10 {
        seq![digit_char(n as int)]
    } else {
        dec_digits(n / 10) + seq![digit_char((n % 10) as int)]
    }
}

/// A fixed-point quantity rendered the way the provider reads it: the whole
/// part in decimal, then up to three fractional digits with trailing zeros
/// trimmed and the point dropped when nothing follows it.
pub open spec fn spec_milli_string(v: i64) -> Seq<char> {
    let a = if v < 0 {
        -(v as int)
    } else {
        v as int
    };
    let sign: Seq<char> = if v < 0 {
        seq!['-']
    } else {
        Seq::empty()
    };
    let f = a % 1000;
    let frac: Seq<char> = if f == 0 {
        Seq::empty()
    } else if f % 10 != 0 {
        seq!['.', digit_char(f / 100), digit_char((f / 10) % 10), digit_char(f % 10)]
    } else if (f / 10) % 10 != 0 {
        seq!['.', digit_char(f / 100), digit_char((f / 10) % 10)]
    } else {
        seq!['.', digit_char(f / 100)]
    };
    sign + dec_digits((a / 1000) as nat) + frac
}

/// Appends the decimal numeral of `n`.
fn push_dec_digits(out: &mut Vec<char>, n: u64)
    ensures
        final(out)@ == old(out)@ + dec_digits(n as nat),
    decreases n,
{
    if n < 10 {
        out.push((48 + n as u8) as char);
        proof {
            assert(out@ =~= old(out)@ + dec_digits(n as nat));
        }
    } else {
        push_dec_digits(out, n / 10);
        let ghost mid = out@;
        out.push((48 + (n % 10) as u8) as char);
        proof {
            assert(out@ =~= mid + seq![digit_char((n as nat % 10) as int)]);
            assert(out@ =~= old(out)@ + dec_digits(n as nat));
        }
    }
}

/// Renders a fixed-point quantity as [`spec_milli_string`] writes it.
fn milli_to_string(v: i64) -> (r: String)
    requires
        v > i64::MIN,
    ensures
        r@ == spec_milli_string(v),
{
    let mut out: Vec<char> = Vec::new();
    if v < 0 {
        out.push('-');
    }
    let a: u64 = if v < 0 {
        (-v) as u64
    } else {
        v as u64
    };
    let whole = a / 1000;
    let f = a % 1000;
    push_dec_digits(&mut out, whole);
    if f != 0 {
        out.push('.');
        out.push((48 + (f / 100) as u8) as char);
        if (f / 10) % 10 != 0 || f % 10 != 0 {
            out.push((48 + ((f / 10) % 10) as u8) as char);
        }
        if f % 10 != 0 {
            out.push((48 + (f % 10) as u8) as char);
        }
    }
    proof {
        assert(out@ =~= spec_milli_string(v));
    }
    crate::json::chars_to_string(out)
}

/// The current-weather query URL: the endpoint with the coordinate, the
/// JSON mode, the unit token and the API key as query parameters.
pub open spec fn spec_request_url(
    lat: i64,
    lon: i64,
    units: crate::types::WeatherUnits,
    api_key: Seq<char>,
) -> Seq<char> {
    "https://api.openweathermap.org/data/2.5/weather?lat="@ + spec_milli_string(lat) + "&lon="@
        + spec_milli_string(lon) + "&mode=json&units="@ + crate::types::spec_units_token(units)
        + "&appid="@ + api_key
}

/// Builds the current-weather request URL for a validated coordinate.
pub fn open_weather_url(
    coords: GeodeticCoords,
    units: crate::types::WeatherUnits,
    api_key: &str,
) -> (r: String)
    requires
        crate::types::valid_latitude(coords.lat),
        crate::types::valid_longitude(coords.lon),
    ensures
        r@ == spec_request_url(coords.lat, coords.lon, units, api_key@),
{
    let mut url = "https://api.openweathermap.org/data/2.5/weather?lat=".to_owned();
    let lat_s = milli_to_string(coords.lat);
    url.append(lat_s.as_str());
    url.append("&lon=");
    let lon_s = milli_to_string(coords.lon);
    url.append(lon_s.as_str());
    url.append("&mode=json&units=");
    url.append(units.token());
    url.append("&appid=");
    url.append(api_key);
    url
}

} // verus!
