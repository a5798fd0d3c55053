//! What the geolocation provider reports for an address.
use vstd::prelude::*;

verus! {

/// Whether the geolocation provider could resolve the address.
#[derive(Debug, PartialEq, Eq, Structural, Clone, Copy)]
pub enum Status {
    Success,
    Fail,
}

/// The geolocation provider's answer for one address. Coordinates are decimal
/// degrees, as the text the provider's number was written as.
#[derive(Debug)]
pub struct IP {
    pub status: Status,
    pub country: String,
    pub country_code: String,
    pub region: String,
    pub region_name: String,
    pub city: String,
    pub zip: String,
    pub lat: String,
    pub lon: String,
    pub isp: String,
}

impl IP {
    pub fn new(
        status: Status,
        country: String,
        country_code: String,
        region: String,
        region_name: String,
        city: String,
        zip: String,
        lat: String,
        lon: String,
        isp: String,
    ) -> (r: IP)
        ensures
            r == (IP { status, country, country_code, region, region_name, city, zip, lat, lon, isp }),
    {
        IP { status, country, country_code, region, region_name, city, zip, lat, lon, isp }
    }
}

} // verus!
