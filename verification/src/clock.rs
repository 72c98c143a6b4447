//! The current time.

use vstd::prelude::*;

verus! {

/// `chrono::Utc::now` and `DateTime::to_rfc3339`: the current time as RFC 3339
/// writes it. Nothing is claimed of the text, since it differs from call to call.
#[verifier::external_body]
pub(crate) fn now_text() -> (r: String)
{
    chrono::Utc::now().to_rfc3339()
}

/// `chrono::Utc::now` and `DateTime::timestamp`: the seconds since the epoch.
/// Nothing is claimed of the number, since it differs from call to call.
#[verifier::external_body]
pub(crate) fn now_seconds() -> (r: i64)
{
    chrono::Utc::now().timestamp()
}

} // verus!
