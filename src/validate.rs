//! Validation of command-line values before any request is made.
use vstd::prelude::*;
use crate::error::Error;
use crate::text::{int_text, int_to_text};

verus! {

/// The smallest day count a forecast or alert lookup accepts.
pub const MIN_DAYS: i32 = 1;

/// The largest day count a forecast or alert lookup accepts.
pub const MAX_DAYS: i32 = 5;

/// Whether `days` is a day count that lookups accept.
pub open spec fn days_in_range(days: int) -> bool {
    MIN_DAYS <= days <= MAX_DAYS
}

/// The message that accompanies a rejected day count.
pub open spec fn days_message() -> Seq<char> {
    "Days should be between 1 and 5."@
}

/// Whether `e` is the rejection of the day count `days`: `InvalidArgument`
/// carrying its decimal text and the range message.
pub open spec fn is_days_rejection(days: int, e: Error) -> bool {
    match e {
        Error::InvalidArgument { arg, message } => arg@ == int_text(days) && message@ == days_message(),
        _ => false,
    }
}

/// Accepts a day count in `1..=5`; rejects any other with `InvalidArgument`,
/// carrying the count's decimal text.
pub fn validate_days(days: i32) -> (r: Result<(), Error>)
    ensures
        days_in_range(days as int) <==> r is Ok,
        !days_in_range(days as int) ==> (r matches Err(e) && is_days_rejection(days as int, e)),
{
    if MIN_DAYS <= days && days <= MAX_DAYS {
        Ok(())
    } else {
        Err(Error::InvalidArgument {
            arg: int_to_text(days),
            message: String::from_str("Days should be between 1 and 5."),
        })
    }
}

} // verus!
