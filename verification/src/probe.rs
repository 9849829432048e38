//! Classification of a single probe of a monitored endpoint.
//!
//! A probe issues one outbound request; every failure mode collapses to
//! `false`. The network call itself happens outside the library, which
//! hands in the status code of the response, or `None` when no response
//! arrived (connection error, timeout, DNS failure).

use vstd::prelude::*;

verus! {

/// A status code counts as success exactly when it lies in the 2xx range.
pub open spec fn is_success_code(code: u16) -> bool {
    200 <= code < 300
}

/// What a probe outcome classifies to: healthy exactly when a response
/// arrived and its status code is in the success range.
pub open spec fn classifies_healthy(response_code: Option<u16>) -> bool {
    match response_code {
        Some(code) => is_success_code(code),
        None => false,
    }
}

/// Reduce a probe outcome to the boolean the monitor loop records.
/// `response_code` is `Some(code)` when a response with that status code
/// arrived, and `None` for any connection error, timeout or DNS failure.
pub fn classify_probe(response_code: Option<u16>) -> (healthy: bool)
    ensures
        healthy == classifies_healthy(response_code),
{
    match response_code {
        Some(code) => 200 <= code && code < 300,
        None => false,
    }
}

} // verus!
