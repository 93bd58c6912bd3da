//! The labels the observability layer attaches to its counter events. The
//! emission itself is a call-site side effect outside the engine; what is
//! owned — and proved — here is which labels each event carries.

use vstd::prelude::*;
use crate::text::{decimal_digits, format_u64};

verus! {

/// The labels of one HTTP-request counter event: the method, the path, and
/// the status written in decimal.
pub fn record_request(method: &str, path: &str, status: u16) -> (labels: (String, String, String))
    ensures
        labels.0@ == method@,
        labels.1@ == path@,
        labels.2@ == decimal_digits(status as nat),
{
    (method.to_owned(), path.to_owned(), format_u64(status as u64))
}

/// The result label of one validation counter event.
pub fn record_validation(valid: bool) -> (label: String)
    ensures
        valid ==> label@ == "valid"@,
        !valid ==> label@ == "invalid"@,
{
    if valid {
        "valid".to_owned()
    } else {
        "invalid".to_owned()
    }
}

} // verus!
