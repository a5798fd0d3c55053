use vstd::prelude::*;

verus! {

/// The kinds of failure that a lookup reports to its caller.
#[derive(Debug, PartialEq)]
pub enum Error {
    /// An uncategorised failure.
    Error { message: String },
    /// An upstream endpoint could not be reached.
    Fetch { message: String },
    /// An upstream endpoint answered with a payload that could not be read.
    Response { message: String },
    /// The geolocation provider rejected or could not resolve an address.
    BadIp { ip: String, message: String },
    /// A command-line value lies outside its allowed range.
    InvalidArgument { arg: String, message: String },
    /// The geolocation provider answered, but reported that the lookup failed.
    UnknownLocation { location: String },
    /// A coordinate-based query was asked of a location without coordinates.
    NoLocation,
}

} // verus!
