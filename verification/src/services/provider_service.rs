//! How an attempt to reach a provider is judged: the same for every provider.

use vstd::prelude::*;
use crate::models::provider::{FailureKind, Fetched};

verus! {

/// Whether an HTTP status stands for success: 200 to 299.
pub open spec fn is_success_status(status: u16) -> bool {
    200 <= status < 300
}

/// Calls `StatusCode::from_u16` and `StatusCode::is_success` of reqwest (both
/// come from the `http` crate). Trusted: `from_u16` accepts 100 to 999 and
/// `is_success` holds of 200 to 299, so the answer is `true` for exactly the
/// numbers 200 to 299; a number that is no status code gives `false`.
#[verifier::external_body]
fn status_is_success(status: u16) -> (ok: bool)
    ensures
        ok == is_success_status(status),
{
    match reqwest::StatusCode::from_u16(status) {
        Ok(code) => code.is_success(),
        Err(_) => false,
    }
}

/// Whether a provider's answer with this status is to be read at all.
pub fn accepted(status: u16) -> (ok: bool)
    ensures
        ok == is_success_status(status),
{
    status_is_success(status)
}

/// What an attempt amounts to: the payload, where the provider answered with
/// success and the body could be decoded, else the kind of failure. The
/// status is judged before the body.
pub open spec fn fetch_outcome<T>(fetched: Fetched<T>) -> Result<T, FailureKind> {
    match fetched {
        Fetched::MissingCredential => Err(FailureKind::ConfigurationMissing),
        Fetched::Unreachable => Err(FailureKind::TransportFailure),
        Fetched::Answered { status, payload } => if !is_success_status(status) {
            Err(FailureKind::UpstreamFailure)
        } else {
            match payload {
                Some(body) => Ok(body),
                None => Err(FailureKind::DecodeFailure),
            }
        },
    }
}

/// Judges one attempt.
pub fn outcome<T>(fetched: Fetched<T>) -> (result: Result<T, FailureKind>)
    ensures
        result == fetch_outcome(fetched),
{
    match fetched {
        Fetched::MissingCredential => Err(FailureKind::ConfigurationMissing),
        Fetched::Unreachable => Err(FailureKind::TransportFailure),
        Fetched::Answered { status, payload } => {
            if !accepted(status) {
                Err(FailureKind::UpstreamFailure)
            } else {
                match payload {
                    Some(body) => Ok(body),
                    None => Err(FailureKind::DecodeFailure),
                }
            }
        },
    }
}

} // verus!
