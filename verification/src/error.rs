//! Error kinds reported by the protocol engine.

use vstd::prelude::*;

verus! {

/// An error surfaced while driving a socket session.
///
/// No condition here aborts the process: parse failures and missing
/// credentials are reported to the user handler and the session continues.
#[derive(Debug, Clone, PartialEq, Eq)]
pub enum Error {
    /// A malformed inbound frame; carries the raw frame text for diagnostics.
    FrameParse { raw: String },
    /// No credential was available when authentication was attempted.
    Unauthorized,
    /// A failure reported by the underlying transport, forwarded opaquely.
    Transport { description: String },
}

impl Error {
    /// A short description of the error, for display by callers.
    pub fn describe(&self) -> (r: String)
        ensures
            match self {
                Error::FrameParse { .. } => r@ == "malformed frame received"@,
                Error::Unauthorized => r@ == "unauthorized"@,
                Error::Transport { description } => r@ == description@,
            },
    {
        match self {
            Error::FrameParse { raw: _ } => String::from_str("malformed frame received"),
            Error::Unauthorized => String::from_str("unauthorized"),
            Error::Transport { description } => description.clone(),
        }
    }
}

/// An error in the payload of an HTTP endpoint response.
#[derive(Debug, Clone, PartialEq, Eq)]
pub enum ApiError {
    /// The response carried an `ok` marker other than 1.
    NotOk(i32),
    /// A field required on success was absent; carries the field name.
    MissingField(&'static str),
}

} // verus!
