//! Weather lookup core: the mapping from upstream weather and geolocation
//! payloads to domain records, the request each lookup makes, and the error
//! taxonomy that every lookup reports through.
use vstd::prelude::*;
use crate::error::Error;

pub mod alert;
pub mod astronomy;
pub mod date;
pub mod error;
pub mod fetch;
pub mod ip;
pub mod location;
pub mod request;
pub mod text;
pub mod validate;
pub mod weather;

verus! {

/// Whether a `String` result carries the text that `s` names, or the same error.
pub open spec fn text_result_is(r: Result<String, Error>, s: Result<Seq<char>, Error>) -> bool {
    match (r, s) {
        (Ok(t), Ok(u)) => t@ == u,
        (Err(e), Err(f)) => e == f,
        _ => false,
    }
}

/// Something that can be turned into a query for an upstream service.
pub trait Query<T> {
    /// Whether `r` is what `query` returns for `self`.
    spec fn query_result(&self, r: Result<T, Error>) -> bool;

    /// The query for `self`, or the reason none can be made.
    fn query(&self) -> (r: Result<T, Error>)
        ensures
            self.query_result(r),
    ;
}

} // verus!
