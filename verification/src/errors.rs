//! The error taxonomy of the client.
//!
//! Every failure is returned to the immediate caller as a typed result;
//! nothing is retried or suppressed inside the library.

use vstd::prelude::*;

verus! {

/// A request could not even be turned into a URL.
#[derive(Debug, Clone, Copy, PartialEq, Eq)]
pub enum BuildError {
    /// A search was asked for with no parameter set at all; such a search is
    /// meaningless and is rejected before any network activity.
    EmptyParams,
}

/// The deployment-configuration invariant was broken.
#[derive(Debug, Clone, Copy, PartialEq, Eq)]
pub enum ConfigError {
    /// A built URL did not start with the default authority it was expected
    /// to start with; this indicates a defect, not a runtime condition.
    BaseMismatch,
}

/// A response body did not have the JSON shape the route calls for.
#[derive(Debug, Clone, Copy, PartialEq, Eq)]
pub enum DecodeError {
    /// A value had a shape outside what the tolerant value model absorbs.
    WrongShape,
}

/// Any failure a client operation can surface.
#[derive(Debug, Clone, PartialEq, Eq)]
pub enum ClientError {
    /// The URL could not be built.
    Build(BuildError),
    /// The deployment-configuration invariant was broken.
    Config(ConfigError),
    /// The response body could not be decoded.
    Decode(DecodeError),
    /// The transport failed or the server answered with a non-success
    /// status; the message is the transport's own description.
    Transport(String),
}

} // verus!
