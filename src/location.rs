//! Where the caller is: the record every weather lookup is made for.
use vstd::prelude::*;
use crate::error::Error;
use crate::fetch::Fetched;
use crate::ip::{Status, IP};
use crate::{text_result_is, Query};

verus! {

/// An approximate geographic location.
///
/// Coordinates are decimal degrees, kept as the text the geolocation
/// provider's number was written as; they are only ever sent on as text.
#[derive(Debug, Clone)]
pub struct Location {
    pub country: String,
    pub region: Option<String>,
    pub city: Option<String>,
    pub lat: Option<String>,
    pub lon: Option<String>,
}

impl Location {
    /// Latitude and longitude are both present or both absent.
    pub open spec fn wf(&self) -> bool {
        self.lat.is_some() == self.lon.is_some()
    }

    /// Whether a coordinate-based query can be made for this location.
    pub open spec fn has_coordinates(&self) -> bool {
        self.lat.is_some() && self.lon.is_some()
    }

    /// The `{lat},{lon}` query text.
    pub open spec fn coordinate_query(&self) -> Seq<char>
        recommends
            self.has_coordinates(),
    {
        self.lat.unwrap()@ + ","@ + self.lon.unwrap()@
    }

    /// The coordinate query, or `NoLocation` when there are no coordinates.
    pub open spec fn spec_query(&self) -> Result<Seq<char>, Error> {
        if self.has_coordinates() {
            Ok(self.coordinate_query())
        } else {
            Err(Error::NoLocation)
        }
    }

    /// `city, region, country`, or `city, country` without a region.
    pub open spec fn display_text(&self) -> Seq<char>
        recommends
            self.city.is_some(),
    {
        match self.region {
            Some(region) => self.city.unwrap()@ + ", "@ + region@ + ", "@ + self.country@,
            None => self.city.unwrap()@ + ", "@ + self.country@,
        }
    }

    /// A one-line description of the location for display.
    pub fn to_string(&self) -> (r: String)
        requires
            self.city.is_some(),
        ensures
            r@ == self.display_text(),
    {
        let mut s = match &self.city {
            Some(city) => city.clone(),
            None => String::new(),
        };
        match &self.region {
            Some(region) => {
                s.append(", ");
                s.append(region.as_str());
            },
            None => {},
        }
        s.append(", ");
        s.append(self.country.as_str());
        proof {
            assert(s@ =~= self.display_text());
        }
        s
    }
}

impl Query<String> for Location {
    open spec fn query_result(&self, r: Result<String, Error>) -> bool {
        text_result_is(r, self.spec_query())
    }

    /// `{lat},{lon}` when both coordinates are present; `NoLocation` otherwise.
    fn query(&self) -> (r: Result<String, Error>) {
        match (&self.lat, &self.lon) {
            (Some(lat), Some(lon)) => {
                let mut q = lat.clone();
                q.append(",");
                q.append(lon.as_str());
                Ok(q)
            },
            _ => Err(Error::NoLocation),
        }
    }
}


/// One match of the weather provider's place search. Coordinates are decimal
/// degrees, as the text the provider's number was written as.
#[derive(Debug)]
pub struct PlaceMatch {
    pub name: String,
    pub region: String,
    pub country: String,
    pub lat: String,
    pub lon: String,
}

/// The location a place-search match gives: its country, region and name,
/// and both coordinates.
pub open spec fn location_of_place(m: PlaceMatch) -> Location {
    Location {
        country: m.country,
        region: Some(m.region),
        city: Some(m.name),
        lat: Some(m.lat),
        lon: Some(m.lon),
    }
}

impl Location {
    /// The location of a place-search match, beside the one an address
    /// lookup gives; it has both coordinates.
    pub fn from_place(m: PlaceMatch) -> (r: Location)
        ensures
            r == location_of_place(m),
            r.wf(),
            r.has_coordinates(),
    {
        Location {
            country: m.country,
            region: Some(m.region),
            city: Some(m.name),
            lat: Some(m.lat),
            lon: Some(m.lon),
        }
    }
}

/// What resolving `place` gives from what the place search brought back: the
/// first match's location; `UnknownLocation` carrying `place` when nothing
/// matched; `Fetch` / `Response` when nothing readable came back.
pub open spec fn search_outcome_is(place: Seq<char>, fetched: Fetched<Vec<PlaceMatch>>, r: Result<Location, Error>) -> bool {
    match fetched {
        Fetched::Payload(v) => if v@.len() == 0 {
            match r {
                Err(Error::UnknownLocation { location }) => location@ == place,
                _ => false,
            }
        } else {
            r == Ok::<Location, Error>(location_of_place(v@[0]))
        },
        Fetched::Unreachable(m) => r == Err::<Location, Error>(Error::Fetch { message: m }),
        Fetched::Unreadable(m) => r == Err::<Location, Error>(Error::Response { message: m }),
    }
}

/// Finishes resolving a place name or postal code to a location from what the
/// place search brought back.
pub fn location_from_search(place: &str, fetched: Fetched<Vec<PlaceMatch>>) -> (r: Result<Location, Error>)
    ensures
        search_outcome_is(place@, fetched, r),
        r matches Ok(l) ==> l.wf() && l.has_coordinates(),
{
    match fetched.into_result() {
        Ok(v) => {
            let mut matches = v;
            if matches.len() == 0 {
                Err(Error::UnknownLocation { location: String::from_str(place) })
            } else {
                let first = matches.remove(0);
                Ok(Location::from_place(first))
            }
        },
        Err(e) => Err(e),
    }
}

/// The location a successful geolocation answer gives: its country, its region
/// code and city, and both coordinates.
pub open spec fn location_of(p: IP) -> Location {
    Location {
        country: p.country,
        region: Some(p.region),
        city: Some(p.city),
        lat: Some(p.lat),
        lon: Some(p.lon),
    }
}

/// What resolving `ip` gives from what the geolocation request brought back:
/// the location; `UnknownLocation` when the provider reports failure; `BadIp`
/// carrying the address and the message when nothing readable came back.
pub open spec fn lookup_outcome_is(ip: Seq<char>, fetched: Fetched<IP>, r: Result<Location, Error>) -> bool {
    match fetched {
        Fetched::Payload(p) => if p.status == Status::Fail {
            match r {
                Err(Error::UnknownLocation { location }) => location@ == ip,
                _ => false,
            }
        } else {
            r == Ok::<Location, Error>(location_of(p))
        },
        Fetched::Unreachable(m) | Fetched::Unreadable(m) => match r {
            Err(Error::BadIp { ip: i, message }) => i@ == ip && message == m,
            _ => false,
        },
    }
}

/// Finishes resolving `ip` to a location from what the geolocation request
/// brought back.
pub fn location_from_lookup(ip: &str, fetched: Fetched<IP>) -> (r: Result<Location, Error>)
    ensures
        lookup_outcome_is(ip@, fetched, r),
        r matches Ok(l) ==> l.wf() && l.has_coordinates(),
{
    match fetched {
        Fetched::Payload(p) => {
            if p.status == Status::Fail {
                Err(Error::UnknownLocation { location: String::from_str(ip) })
            } else {
                Ok(Location {
                    country: p.country,
                    region: Some(p.region),
                    city: Some(p.city),
                    lat: Some(p.lat),
                    lon: Some(p.lon),
                })
            }
        },
        Fetched::Unreachable(m) => Err(Error::BadIp { ip: String::from_str(ip), message: m }),
        Fetched::Unreadable(m) => Err(Error::BadIp { ip: String::from_str(ip), message: m }),
    }
}

} // verus!
