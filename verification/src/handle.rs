//! Error and request-type surface shared between the service and its
//! callers.

use vstd::prelude::*;

use crate::parsing_error::ParsingError;

verus! {

/// Errors a PCP client operation can report.
///
/// The socket and channel variants stand for I/O and channel
/// failures of the surrounding runtime, which carries its own
/// detail; a parsing failure carries the codec's error.
#[derive(Clone, Copy, Debug, PartialEq, Eq, Structural)]
pub enum Error {
    /// An I/O error on the UDP socket; terminal for the service.
    Socket,
    /// A channel between the service and its peers failed; terminal.
    Channel,
    /// The server sent bytes that do not decode; the service
    /// continues.
    Parsing(ParsingError),
}

/// How long a requested mapping should be kept alive.
#[derive(Clone, Copy, Debug, PartialEq, Eq, Structural)]
pub enum RequestType {
    /// Request once and let the mapping expire naturally.
    Once,
    /// Renew up to the given number of additional times.
    Repeat(usize),
    /// Renew indefinitely until revoked or errored.
    KeepAlive,
}

} // verus!
