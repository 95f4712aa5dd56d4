//! What can go wrong around a lookup, and the shape in which a caller reports
//! one attempt to reach a provider.

use vstd::prelude::*;

verus! {

/// The kinds of failure that the pipeline tells apart.
#[derive(Clone, Copy, Debug, PartialEq, Eq, Structural)]
pub enum FailureKind {
    /// A credential that the call needs is not configured.
    ConfigurationMissing,
    /// The provider could not be reached.
    TransportFailure,
    /// The provider answered with a status outside 200 to 299.
    UpstreamFailure,
    /// The answer could not be decoded.
    DecodeFailure,
    /// The answer was well formed and held nothing usable.
    EmptyResult,
    /// The event store refused a write.
    PersistenceFailure,
}

/// One attempt to fetch a payload of type `T` from a provider, as the caller
/// saw it end.
#[derive(Clone, Debug, PartialEq, Eq)]
pub enum Fetched<T> {
    /// A credential was missing, so nothing was sent.
    MissingCredential,
    /// The request did not get an answer.
    Unreachable,
    /// The provider answered. `payload` is `None` where the body was not
    /// read or could not be decoded.
    Answered { status: u16, payload: Option<T> },
}

} // verus!
