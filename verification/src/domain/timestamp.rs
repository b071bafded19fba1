//! Points in time, as the store assigns them.

use vstd::prelude::*;

verus! {

/// `chrono::NaiveDateTime`, taken as an opaque value: a calendar date and a time
/// of day without an offset. The library reads it as UTC and never looks inside.
#[verifier::external_type_specification]
#[verifier::external_body]
pub struct ExNaiveDateTime(chrono::NaiveDateTime);

/// A store-assigned timestamp, in UTC.
pub type Timestamp = chrono::NaiveDateTime;

} // verus!
