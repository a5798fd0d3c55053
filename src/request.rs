//! The one request each lookup makes: which endpoint, with which query.
//!
//! Every weather lookup needs coordinates; without them it fails with
//! `NoLocation` here, before anything is sent.
use vstd::prelude::*;
use crate::date::CalendarDate;
use crate::error::Error;
use crate::location::Location;
use crate::text::{int_text, int_to_text};
use crate::validate::{days_in_range, is_days_rejection, validate_days};
use crate::{text_result_is, Query};

verus! {

/// Where the upstream services are, and the key the weather service wants.
#[derive(Debug, Clone)]
pub struct Config {
    /// Base address of the public-IP discovery service.
    pub public_ip_api: String,
    /// Base address of the geolocation service.
    pub ip_location_api: String,
    /// Base address of the weather service.
    pub weather_api: String,
    /// API key for the weather service.
    pub weather_key: String,
}

impl Config {
    pub fn new(public_ip_api: String, ip_location_api: String, weather_api: String, weather_key: String) -> (r: Config)
        ensures
            r == (Config { public_ip_api, ip_location_api, weather_api, weather_key }),
    {
        Config { public_ip_api, ip_location_api, weather_api, weather_key }
    }
}

/// `{weather_api}{path}?key={weather_key}&q={q}`.
pub open spec fn endpoint_url(config: Config, path: Seq<char>, q: Seq<char>) -> Seq<char> {
    config.weather_api@ + path + "?key="@ + config.weather_key@ + "&q="@ + q
}

/// The address of the geolocation lookup for `ip`.
pub open spec fn geolocation_url(config: Config, ip: Seq<char>) -> Seq<char> {
    config.ip_location_api@ + "/"@ + ip
}

/// The address of the place search for `place`, a place name or postal code.
pub open spec fn place_search_url(config: Config, place: Seq<char>) -> Seq<char> {
    endpoint_url(config, "/search.json"@, place)
}

/// The address of the current-conditions lookup for `location`.
pub open spec fn current_weather_target(config: Config, location: Location) -> Result<Seq<char>, Error> {
    match location.spec_query() {
        Ok(q) => Ok(endpoint_url(config, "/current.json"@, q)),
        Err(e) => Err(e),
    }
}

/// The address of the forecast lookup for `location` over `days` days.
pub open spec fn forecast_target(config: Config, location: Location, days: int) -> Result<Seq<char>, Error> {
    match location.spec_query() {
        Ok(q) => Ok(endpoint_url(config, "/forecast.json"@, q) + "&days="@ + int_text(days)),
        Err(e) => Err(e),
    }
}

/// The address of the alert lookup for `location` over `days` days.
pub open spec fn alerts_target(config: Config, location: Location, days: int) -> Result<Seq<char>, Error> {
    match forecast_target(config, location, days) {
        Ok(u) => Ok(u + "&alerts=yes"@),
        Err(e) => Err(e),
    }
}

/// The address of the astronomy lookup for `location` on the day written `date`.
pub open spec fn astronomy_target(config: Config, location: Location, date: Seq<char>) -> Result<Seq<char>, Error> {
    match location.spec_query() {
        Ok(q) => Ok(endpoint_url(config, "/astronomy.json"@, q) + "&dt="@ + date),
        Err(e) => Err(e),
    }
}

fn endpoint(config: &Config, path: &str, q: &str) -> (r: String)
    ensures
        r@ == endpoint_url(*config, path@, q@),
{
    let mut url = config.weather_api.clone();
    url.append(path);
    url.append("?key=");
    url.append(config.weather_key.as_str());
    url.append("&q=");
    url.append(q);
    proof {
        assert(url@ =~= endpoint_url(*config, path@, q@));
    }
    url
}

/// The address that resolves `ip` to a location.
pub fn geolocation_request(config: &Config, ip: &str) -> (r: String)
    ensures
        r@ == geolocation_url(*config, ip@),
{
    let mut url = config.ip_location_api.clone();
    url.append("/");
    url.append(ip);
    proof {
        assert(url@ =~= geolocation_url(*config, ip@));
    }
    url
}

/// The address that resolves a place name or postal code to locations.
pub fn place_search_request(config: &Config, place: &str) -> (r: String)
    ensures
        r@ == place_search_url(*config, place@),
{
    endpoint(config, "/search.json", place)
}

/// The current-conditions request for `location`; `NoLocation` without coordinates.
pub fn current_weather_request(config: &Config, location: &Location) -> (r: Result<String, Error>)
    ensures
        text_result_is(r, current_weather_target(*config, *location)),
{
    match location.query() {
        Ok(q) => Ok(endpoint(config, "/current.json", q.as_str())),
        Err(e) => Err(e),
    }
}

/// The forecast request for `location` over `days` days. Without coordinates
/// it is `NoLocation`, whatever `days` is; with them, a day count outside
/// `1..=5` is rejected as `validate_days` rejects it.
pub fn forecast_request(config: &Config, location: &Location, days: i32) -> (r: Result<String, Error>)
    ensures
        days_in_range(days as int) || !location.has_coordinates()
            ==> text_result_is(r, forecast_target(*config, *location, days as int)),
        location.has_coordinates() && !days_in_range(days as int)
            ==> (r matches Err(e) && is_days_rejection(days as int, e)),
{
    match location.query() {
        Ok(q) => {
            match validate_days(days) {
                Ok(()) => {},
                Err(e) => {
                    return Err(e);
                },
            }
            let mut url = endpoint(config, "/forecast.json", q.as_str());
            url.append("&days=");
            let d = int_to_text(days);
            url.append(d.as_str());
            proof {
                assert(url@ =~= forecast_target(*config, *location, days as int)->Ok_0);
            }
            Ok(url)
        },
        Err(e) => Err(e),
    }
}

/// The alert request for `location` over `days` days. Without coordinates it
/// is `NoLocation`, whatever `days` is; with them, a day count outside `1..=5`
/// is rejected as `validate_days` rejects it.
pub fn alerts_request(config: &Config, location: &Location, days: i32) -> (r: Result<String, Error>)
    ensures
        days_in_range(days as int) || !location.has_coordinates()
            ==> text_result_is(r, alerts_target(*config, *location, days as int)),
        location.has_coordinates() && !days_in_range(days as int)
            ==> (r matches Err(e) && is_days_rejection(days as int, e)),
{
    match forecast_request(config, location, days) {
        Ok(u) => {
            let mut url = u;
            url.append("&alerts=yes");
            Ok(url)
        },
        Err(e) => Err(e),
    }
}

/// The astronomy request for `location` on `date`; `NoLocation` without coordinates.
pub fn astronomy_request(config: &Config, location: &Location, date: &CalendarDate) -> (r: Result<String, Error>)
    ensures
        text_result_is(r, astronomy_target(*config, *location, date.iso_text())),
{
    match location.query() {
        Ok(q) => {
            let mut url = endpoint(config, "/astronomy.json", q.as_str());
            url.append("&dt=");
            let d = date.to_iso_text();
            url.append(d.as_str());
            proof {
                assert(url@ =~= astronomy_target(*config, *location, date.iso_text())->Ok_0);
            }
            Ok(url)
        },
        Err(e) => Err(e),
    }
}

/// A weather lookup for a location with both coordinates makes exactly one
/// request, to the address its target names (for forecasts and alerts, once
/// the day count is in `1..=5`); for a location with neither, every weather
/// lookup fails with `NoLocation`, whatever the day count, and makes none.
pub proof fn lemma_lookups_need_coordinates(config: Config, location: Location, days: int, date: Seq<char>)
    requires
        location.wf(),
    ensures
        location.lat.is_some() ==> current_weather_target(config, location) is Ok
            && astronomy_target(config, location, date) is Ok,
        location.lat.is_some() && days_in_range(days) ==> forecast_target(config, location, days) is Ok
            && alerts_target(config, location, days) is Ok,
        location.lat.is_none() ==> current_weather_target(config, location) == Err::<Seq<char>, Error>(Error::NoLocation)
            && forecast_target(config, location, days) == Err::<Seq<char>, Error>(Error::NoLocation)
            && alerts_target(config, location, days) == Err::<Seq<char>, Error>(Error::NoLocation)
            && astronomy_target(config, location, date) == Err::<Seq<char>, Error>(Error::NoLocation),
{
}

} // verus!
