//! The ways in which a request can fail.

use vstd::prelude::*;

verus! {

/// The error description that the server sends with a failure status.
#[derive(Debug, Clone, PartialEq, Eq)]
pub struct ErrorBody {
    /// The server's machine-readable error code.
    pub code: String,
    /// The server's message for a human reader.
    pub message: String,
}

/// Why a request did not yield a value. Every failure is returned to the caller
/// as one of these; nothing is retried or suppressed.
#[derive(Debug, Clone, PartialEq, Eq)]
pub enum Error {
    /// No response arrived: the connection, the name lookup or the TLS
    /// handshake failed, or the transport gave up waiting.
    Transport {
        /// The transport's description of what went wrong.
        cause: String,
    },
    /// The server reported success, but the body did not have the expected
    /// shape.
    Decode {
        /// The body as it was received.
        raw: Vec<u8>,
        /// Where the body departs from the expected shape.
        reason: String,
    },
    /// The server answered with a status outside the success class.
    Api {
        status: u16,
        /// The server's error code, where the body could be read.
        code: Option<String>,
        /// The server's message, where the body could be read.
        message: Option<String>,
        /// The body as it was received.
        raw: Vec<u8>,
    },
}

} // verus!
