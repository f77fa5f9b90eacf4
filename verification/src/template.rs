//! Interpreting generic calls whose response carries only an `ok` marker.

use vstd::prelude::*;

use crate::error::ApiError;

verus! {

/// Call raw result, as carried by the response body.
#[derive(Debug, Clone, Copy, PartialEq, Eq)]
pub struct Response {
    /// The `ok` marker of the response; 1 on success.
    pub ok: i32,
}

/// Call info: a successful response with nothing more to report.
#[derive(Debug, Clone, Copy, PartialEq, Eq)]
pub struct CallInfo {}

impl CallInfo {
    /// Interprets the raw response: the `ok` marker must be 1, and exactly
    /// then the call succeeds.
    pub fn from_raw(raw: Response) -> (r: Result<CallInfo, ApiError>)
        ensures
            match r {
                Ok(_) => raw.ok == 1,
                Err(e) => raw.ok != 1 && e == ApiError::NotOk(raw.ok),
            },
    {
        let Response { ok } = raw;
        if ok != 1 {
            return Err(ApiError::NotOk(ok));
        }
        Ok(CallInfo {  })
    }
}

} // verus!
