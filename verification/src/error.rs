//! Error taxonomy of the bridge.
//!
//! A failure surfaced to a caller comes from one of three domains: the
//! protocol engine itself (`Ssh2`), the transport the engine runs over
//! (`Io`), or a condition this bridge detects on its own (`Other`). The
//! would-block condition is never surfaced: the retry driver absorbs it.

use vstd::prelude::*;

verus! {

/// Engine code meaning "the call cannot finish without more socket I/O".
pub const LIBSSH2_ERROR_EAGAIN: i32 = -37;

/// Engine code ending a directory listing: no entry is left to read.
pub const LIBSSH2_ERROR_FILE: i32 = -16;

/// Engine code of a failed authentication attempt.
pub const LIBSSH2_ERROR_AUTHENTICATION_FAILED: i32 = -18;

/// Engine code of a remote request the server refused, e.g. asking to
/// listen on a port that another listener already holds.
pub const LIBSSH2_ERROR_REQUEST_DENIED: i32 = -32;

/// A protocol-level failure exactly as the engine reports it: a numeric
/// code (negative for session codes, positive for file-transfer status
/// codes) and a human-readable message.
#[derive(Debug)]
pub struct EngineError {
    pub code: i32,
    pub msg: String,
}

impl EngineError {
    pub fn new(code: i32, msg: String) -> (r: EngineError)
        ensures
            r.code == code,
            r.msg@ == msg@,
    {
        EngineError { code, msg }
    }

    /// True of the one engine result that is never surfaced: the call
    /// would block and must be retried once the socket is ready.
    pub open spec fn spec_is_would_block(&self) -> bool {
        self.code == LIBSSH2_ERROR_EAGAIN
    }

    pub fn is_would_block(&self) -> (r: bool)
        ensures
            r == self.spec_is_would_block(),
    {
        self.code == LIBSSH2_ERROR_EAGAIN
    }
}

impl Clone for EngineError {
    fn clone(&self) -> (r: Self)
        ensures
            r == *self,
    {
        EngineError { code: self.code, msg: self.msg.clone() }
    }
}

/// Tells whether an engine error means "would block". Such an error only
/// drives another retry; every other result is surfaced exactly once.
pub fn ssh2_error_is_would_block(err: &EngineError) -> (r: bool)
    ensures
        r == err.spec_is_would_block(),
{
    err.is_would_block()
}

/// What a bridged operation can fail with: an engine error, a transport
/// I/O failure (which aborts the retry loop), or a condition the bridge
/// detected itself.
#[derive(Debug)]
pub enum Error {
    Ssh2(EngineError),
    Io(String),
    Other(String),
}

impl Error {
    pub fn as_ssh2(&self) -> (r: Option<&EngineError>)
        ensures
            match self {
                Error::Ssh2(e) => r == Some(e),
                _ => r is None,
            },
    {
        match self {
            Error::Ssh2(e) => Some(e),
            _ => None,
        }
    }

    pub fn as_io(&self) -> (r: Option<&String>)
        ensures
            match self {
                Error::Io(m) => r == Some(m),
                _ => r is None,
            },
    {
        match self {
            Error::Io(m) => Some(m),
            _ => None,
        }
    }

    pub fn as_other(&self) -> (r: Option<&String>)
        ensures
            match self {
                Error::Other(m) => r == Some(m),
                _ => r is None,
            },
    {
        match self {
            Error::Other(m) => Some(m),
            _ => None,
        }
    }

    /// A caller distinguishing authentication failure from transport
    /// trouble branches on this: the engine's own code for a refused
    /// authentication attempt.
    pub open spec fn spec_is_authentication_failure(&self) -> bool {
        match self {
            Error::Ssh2(e) => e.code == LIBSSH2_ERROR_AUTHENTICATION_FAILED,
            _ => false,
        }
    }

    pub fn is_authentication_failure(&self) -> (r: bool)
        ensures
            r == self.spec_is_authentication_failure(),
    {
        match self {
            Error::Ssh2(e) => e.code == LIBSSH2_ERROR_AUTHENTICATION_FAILED,
            _ => false,
        }
    }

    /// The "address in use" class of engine failure: the server refused a
    /// forward-listen request, typically because the port is taken.
    pub open spec fn spec_is_address_in_use(&self) -> bool {
        match self {
            Error::Ssh2(e) => e.code == LIBSSH2_ERROR_REQUEST_DENIED,
            _ => false,
        }
    }

    pub fn is_address_in_use(&self) -> (r: bool)
        ensures
            r == self.spec_is_address_in_use(),
    {
        match self {
            Error::Ssh2(e) => e.code == LIBSSH2_ERROR_REQUEST_DENIED,
            _ => false,
        }
    }
}

impl Clone for Error {
    fn clone(&self) -> (r: Self)
        ensures
            r == *self,
    {
        match self {
            Error::Ssh2(e) => Error::Ssh2(e.clone()),
            Error::Io(m) => Error::Io(m.clone()),
            Error::Other(m) => Error::Other(m.clone()),
        }
    }
}

} // verus!
