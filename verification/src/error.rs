//! The failures that a call against the remote endpoint can end in.

use vstd::prelude::*;

verus! {

/// Why a text is no absolute URL, as the parser says it.
#[derive(Debug, Clone, Copy, PartialEq, Eq)]
pub enum UrlError {
    EmptyHost,
    IdnaError,
    InvalidPort,
    InvalidIpv4Address,
    InvalidIpv6Address,
    InvalidDomainCharacter,
    RelativeUrlWithoutBase,
    RelativeUrlWithCannotBeABaseBase,
    SetHostOnCannotBeABaseUrl,
    Overflow,
}

/// Why a request, or a run of the listener, did not succeed.
#[derive(Debug, PartialEq)]
pub enum Error {
    /// The exchange with the remote side failed on the network or I/O level.
    Transport(String),
    /// The response body was not a well-formed structured document.
    Decode(String),
    /// The remote side answered with a failure and this description.
    Api(String),
    /// The response broke the envelope's contract.
    InvalidState(String),
    /// The token does not give a valid endpoint address.
    InvalidTokenFormat(UrlError),
    /// The environment variable holding the token could not be read.
    InvalidEnvironmentVar(String),
    /// A value of a request could not be encoded.
    Encode(String),
}

} // verus!
