//! The error surface of the surrounding system. A record failing validation
//! is never one of these: that is normal output. These classify what can go
//! wrong around the engine — configuration at startup, policy checks before
//! a batch, rendering, and everything else.

use vstd::prelude::*;
use vstd::string::StringExecFns;

verus! {

#[derive(Debug, Clone, PartialEq)]
pub enum AppError {
    Config(String),
    Validation(String),
    Render(String),
    Internal(String),
}

/// The message an error displays: its class as a prefix, then the detail.
pub open spec fn message_view(e: AppError) -> Seq<char> {
    match e {
        AppError::Config(s) => "Configuration error: "@ + s@,
        AppError::Validation(s) => "Validation error: "@ + s@,
        AppError::Render(s) => "Rendering error: "@ + s@,
        AppError::Internal(s) => "Internal eror: "@ + s@,
    }
}

impl AppError {
    /// The full human-readable message.
    pub fn to_message(&self) -> (m: String)
        ensures
            m@ == message_view(*self),
    {
        match self {
            AppError::Config(s) => "Configuration error: ".to_owned().concat(s.as_str()),
            AppError::Validation(s) => "Validation error: ".to_owned().concat(s.as_str()),
            AppError::Render(s) => "Rendering error: ".to_owned().concat(s.as_str()),
            AppError::Internal(s) => "Internal eror: ".to_owned().concat(s.as_str()),
        }
    }

    /// The HTTP status the transport layer answers with: a policy (validation)
    /// error is the client's fault, anything else the server's.
    pub fn status_code(&self) -> (c: u16)
        ensures
            c == (if *self is Validation {
                400u16
            } else {
                500u16
            }),
    {
        match self {
            AppError::Validation(_) => 400,
            _ => 500,
        }
    }
}

} // verus!
