//! Sun and moon times for one day at one place.
use vstd::prelude::*;
use crate::error::Error;
use crate::fetch::Fetched;
use crate::weather::{flag, weather_of, CurrentResponse, Units};

verus! {

/// The upstream `astro` object.
#[derive(Debug)]
pub struct AstroResponse {
    pub sunrise: String,
    pub sunset: String,
    pub moonrise: String,
    pub moonset: String,
    pub moon_phase: String,
    pub moon_illumination: i32,
    pub is_moon_up: i32,
    pub is_sun_up: i32,
}

/// Sun and moon times, phase and illumination for one day.
#[derive(Debug)]
pub struct Astronomy {
    pub sunrise: String,
    pub sunset: String,
    pub moonrise: String,
    pub moonset: String,
    pub moon_phase: String,
    pub moon_illumination: i32,
    pub is_moon_up: bool,
    pub is_sun_up: bool,
}

/// The record an `astro` object maps to: fields copied, flags read as booleans.
pub open spec fn astronomy_of(a: AstroResponse) -> Astronomy {
    Astronomy {
        sunrise: a.sunrise,
        sunset: a.sunset,
        moonrise: a.moonrise,
        moonset: a.moonset,
        moon_phase: a.moon_phase,
        moon_illumination: a.moon_illumination,
        is_moon_up: flag(a.is_moon_up),
        is_sun_up: flag(a.is_sun_up),
    }
}

impl Astronomy {
    /// A record from upstream values; the two integer flags are set only when `1`.
    pub fn new(
        sunrise: String,
        sunset: String,
        moonrise: String,
        moonset: String,
        moon_phase: String,
        moon_illumination: i32,
        is_moon_up: i32,
        is_sun_up: i32,
    ) -> (r: Astronomy)
        ensures
            r == (Astronomy {
                sunrise, sunset, moonrise, moonset, moon_phase, moon_illumination,
                is_moon_up: flag(is_moon_up),
                is_sun_up: flag(is_sun_up),
            }),
    {
        Astronomy {
            sunrise,
            sunset,
            moonrise,
            moonset,
            moon_phase,
            moon_illumination,
            is_moon_up: is_moon_up == 1,
            is_sun_up: is_sun_up == 1,
        }
    }
}

impl From<AstroResponse> for Astronomy {
    fn from(response: AstroResponse) -> (r: Astronomy) {
        Astronomy::new(
            response.sunrise,
            response.sunset,
            response.moonrise,
            response.moonset,
            response.moon_phase,
            response.moon_illumination,
            response.is_moon_up,
            response.is_sun_up,
        )
    }
}

impl vstd::std_specs::convert::FromSpecImpl<AstroResponse> for Astronomy {
    open spec fn obeys_from_spec() -> bool {
        true
    }

    open spec fn from_spec(v: AstroResponse) -> Astronomy {
        astronomy_of(v)
    }
}

/// The record an astronomy lookup yields from what its one request brought back.
pub open spec fn astronomy_outcome(fetched: Fetched<AstroResponse>) -> Result<Astronomy, Error> {
    match fetched.spec_result() {
        Ok(a) => Ok(astronomy_of(a)),
        Err(e) => Err(e),
    }
}

/// Finishes an astronomy lookup: the mapped record, or `Fetch` / `Response`
/// for a request that brought back no readable payload.
pub fn astronomy_from_fetch(fetched: Fetched<AstroResponse>) -> (r: Result<Astronomy, Error>)
    ensures
        r == astronomy_outcome(fetched),
{
    match fetched.into_result() {
        Ok(a) => Ok(Astronomy::from(a)),
        Err(e) => Err(e),
    }
}

/// An upstream integer flag is `true` exactly when it is `1`: any other value,
/// negative or above one, is `false`, in every record that carries one.
pub proof fn lemma_flags_are_one<N>(a: AstroResponse, c: CurrentResponse<N>, units: Units)
    ensures
        astronomy_of(a).is_moon_up <==> a.is_moon_up == 1,
        astronomy_of(a).is_sun_up <==> a.is_sun_up == 1,
        weather_of(c, units).is_day <==> c.is_day == 1,
{
}

} // verus!
