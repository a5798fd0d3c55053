//! Current and forecast conditions: the upstream `current` object mapped into
//! a `Weather` record in one unit system.
//!
//! The numeric readings are of a type `N` chosen by the caller; the mapping
//! only selects and moves them.
use vstd::prelude::*;
use crate::error::Error;
use crate::fetch::Fetched;

verus! {

/// Which family of upstream readings fills a `Weather` record.
#[derive(Debug, PartialEq, Eq, Structural, Clone, Copy)]
pub enum Units {
    /// `_c`, `_mb`, `_mm`, `_kph` and `_km` readings.
    Metric,
    /// `_f`, `_in`, `_mph` and `_miles` readings.
    Imperial,
}

/// The upstream description of the sky.
#[derive(Debug)]
pub struct ConditionResponse {
    pub text: String,
    pub icon: String,
    pub code: i32,
}

/// The upstream `current` object: each metric reading beside its imperial twin.
#[derive(Debug)]
pub struct CurrentResponse<N> {
    pub temp_c: N,
    pub temp_f: N,
    pub is_day: i32,
    pub condition: ConditionResponse,
    pub wind_mph: N,
    pub wind_kph: N,
    pub wind_degree: i32,
    pub wind_dir: String,
    pub pressure_mb: N,
    pub pressure_in: N,
    pub precip_mm: N,
    pub precip_in: N,
    pub humidity: i32,
    pub cloud: i32,
    pub feelslike_c: N,
    pub feelslike_f: N,
    pub windchill_c: N,
    pub windchill_f: N,
    pub heatindex_c: N,
    pub heatindex_f: N,
    pub dewpoint_c: N,
    pub dewpoint_f: N,
    pub vis_km: N,
    pub vis_miles: N,
    pub uv: N,
    pub gust_mph: N,
    pub gust_kph: N,
}

/// The sky as reported, with its icon reference and numeric code.
#[derive(Debug)]
pub struct Condition {
    pub text: String,
    pub icon: String,
    pub code: i32,
}

/// Conditions at one place, every reading in one unit system.
#[derive(Debug)]
pub struct Weather<N> {
    pub is_day: bool,
    pub temperature: N,
    pub feels_like: N,
    pub heat_index: N,
    pub condition: Condition,
    pub wind_speed: N,
    pub wind_degree: i32,
    pub wind_dir: String,
    pub wind_gust_speed: N,
    pub wind_chill: N,
    pub pressure: N,
    pub precipitation: N,
    pub humidity: i32,
    pub cloud: i32,
    pub uv: N,
    pub visibility: N,
    pub dew_point: N,
}

/// An upstream integer flag read as a boolean: only `1` is set.
pub open spec fn flag(v: i32) -> bool {
    v == 1
}

/// The condition a payload's condition object maps to.
pub open spec fn condition_of(c: ConditionResponse) -> Condition {
    Condition { text: c.text, icon: c.icon, code: c.code }
}

/// Every unit-bearing reading of `w` is the metric twin from `c`.
pub open spec fn reads_metric<N>(w: Weather<N>, c: CurrentResponse<N>) -> bool {
    &&& w.temperature == c.temp_c
    &&& w.feels_like == c.feelslike_c
    &&& w.heat_index == c.heatindex_c
    &&& w.wind_speed == c.wind_kph
    &&& w.wind_gust_speed == c.gust_kph
    &&& w.wind_chill == c.windchill_c
    &&& w.pressure == c.pressure_mb
    &&& w.precipitation == c.precip_mm
    &&& w.visibility == c.vis_km
    &&& w.dew_point == c.dewpoint_c
}

/// Every unit-bearing reading of `w` is the imperial twin from `c`.
pub open spec fn reads_imperial<N>(w: Weather<N>, c: CurrentResponse<N>) -> bool {
    &&& w.temperature == c.temp_f
    &&& w.feels_like == c.feelslike_f
    &&& w.heat_index == c.heatindex_f
    &&& w.wind_speed == c.wind_mph
    &&& w.wind_gust_speed == c.gust_mph
    &&& w.wind_chill == c.windchill_f
    &&& w.pressure == c.pressure_in
    &&& w.precipitation == c.precip_in
    &&& w.visibility == c.vis_miles
    &&& w.dew_point == c.dewpoint_f
}

/// The readings that carry no unit are copied from `c`, and `is_day` is its flag.
pub open spec fn keeps_unitless<N>(w: Weather<N>, c: CurrentResponse<N>) -> bool {
    &&& w.is_day == flag(c.is_day)
    &&& w.condition == condition_of(c.condition)
    &&& w.wind_degree == c.wind_degree
    &&& w.wind_dir == c.wind_dir
    &&& w.humidity == c.humidity
    &&& w.cloud == c.cloud
    &&& w.uv == c.uv
}

/// The record that `c` maps to under `units`.
pub open spec fn weather_of<N>(c: CurrentResponse<N>, units: Units) -> Weather<N> {
    let (temperature, feels_like, heat_index, wind_speed, wind_gust_speed, wind_chill,
        pressure, precipitation, visibility, dew_point) = match units {
        Units::Metric => (c.temp_c, c.feelslike_c, c.heatindex_c, c.wind_kph, c.gust_kph,
            c.windchill_c, c.pressure_mb, c.precip_mm, c.vis_km, c.dewpoint_c),
        Units::Imperial => (c.temp_f, c.feelslike_f, c.heatindex_f, c.wind_mph, c.gust_mph,
            c.windchill_f, c.pressure_in, c.precip_in, c.vis_miles, c.dewpoint_f),
    };
    Weather {
        is_day: flag(c.is_day),
        temperature,
        feels_like,
        heat_index,
        condition: condition_of(c.condition),
        wind_speed,
        wind_degree: c.wind_degree,
        wind_dir: c.wind_dir,
        wind_gust_speed,
        wind_chill,
        pressure,
        precipitation,
        humidity: c.humidity,
        cloud: c.cloud,
        uv: c.uv,
        visibility,
        dew_point,
    }
}

impl Condition {
    pub fn new(text: String, icon: String, code: i32) -> (r: Condition)
        ensures
            r == (Condition { text, icon, code }),
    {
        Condition { text, icon, code }
    }

    /// The condition a payload's condition object maps to, field for field.
    pub fn new_from_response(response: ConditionResponse) -> (r: Condition)
        ensures
            r == condition_of(response),
    {
        Condition::new(response.text, response.icon, response.code)
    }
}

impl<N> Weather<N> {
    pub fn new(
        is_day: bool,
        temperature: N,
        feels_like: N,
        heat_index: N,
        condition: Condition,
        wind_speed: N,
        wind_degree: i32,
        wind_dir: String,
        wind_gust_speed: N,
        wind_chill: N,
        pressure: N,
        precipitation: N,
        humidity: i32,
        cloud: i32,
        uv: N,
        visibility: N,
        dew_point: N,
    ) -> (r: Weather<N>)
        ensures
            r == (Weather {
                is_day, temperature, feels_like, heat_index, condition, wind_speed,
                wind_degree, wind_dir, wind_gust_speed, wind_chill, pressure, precipitation,
                humidity, cloud, uv, visibility, dew_point,
            }),
    {
        Weather {
            is_day,
            temperature,
            feels_like,
            heat_index,
            condition,
            wind_speed,
            wind_degree,
            wind_dir,
            wind_gust_speed,
            wind_chill,
            pressure,
            precipitation,
            humidity,
            cloud,
            uv,
            visibility,
            dew_point,
        }
    }

    /// Maps the upstream `current` object into a record whose every
    /// unit-bearing reading comes from the family that `units` names.
    pub fn new_from_response_with_options(response: CurrentResponse<N>, units: Units) -> (r: Weather<N>)
        ensures
            r == weather_of(response, units),
    {
        let c = response;
        let is_day = c.is_day == 1;
        let condition = Condition::new_from_response(c.condition);
        match units {
            Units::Imperial => Weather::new(
                is_day,
                c.temp_f,
                c.feelslike_f,
                c.heatindex_f,
                condition,
                c.wind_mph,
                c.wind_degree,
                c.wind_dir,
                c.gust_mph,
                c.windchill_f,
                c.pressure_in,
                c.precip_in,
                c.humidity,
                c.cloud,
                c.uv,
                c.vis_miles,
                c.dewpoint_f,
            ),
            Units::Metric => Weather::new(
                is_day,
                c.temp_c,
                c.feelslike_c,
                c.heatindex_c,
                condition,
                c.wind_kph,
                c.wind_degree,
                c.wind_dir,
                c.gust_kph,
                c.windchill_c,
                c.pressure_mb,
                c.precip_mm,
                c.humidity,
                c.cloud,
                c.uv,
                c.vis_km,
                c.dewpoint_c,
            ),
        }
    }
}

/// The record a current-conditions or forecast lookup yields from what its
/// one request brought back.
pub open spec fn weather_outcome<N>(fetched: Fetched<CurrentResponse<N>>, units: Units) -> Result<Weather<N>, Error> {
    match fetched.spec_result() {
        Ok(c) => Ok(weather_of(c, units)),
        Err(e) => Err(e),
    }
}

/// Finishes a current-conditions or forecast lookup: the mapped record, or
/// `Fetch` / `Response` for a request that brought back no readable payload.
pub fn weather_from_fetch<N>(fetched: Fetched<CurrentResponse<N>>, units: Units) -> (r: Result<Weather<N>, Error>)
    ensures
        r == weather_outcome(fetched, units),
{
    match fetched.into_result() {
        Ok(c) => Ok(Weather::new_from_response_with_options(c, units)),
        Err(e) => Err(e),
    }
}

/// Unit selection is total and exclusive: under `Metric` every unit-bearing
/// reading is its metric twin, under `Imperial` its imperial twin, and the
/// unitless readings are the same either way.
pub proof fn lemma_unit_selection<N>(c: CurrentResponse<N>, units: Units)
    ensures
        units == Units::Metric ==> reads_metric(weather_of(c, units), c),
        units == Units::Imperial ==> reads_imperial(weather_of(c, units), c),
        keeps_unitless(weather_of(c, units), c),
{
}

} // verus!
