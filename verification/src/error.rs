//! The failures that the tunnel client tells apart.

use vstd::prelude::*;

verus! {

/// What went wrong, by the stage at which it happened.
#[derive(Debug, Clone, Copy, PartialEq, Eq, Structural)]
pub enum Error {
    /// The identity provider handed out no bearer token.
    Auth,
    /// The bastion's answer, or a value taken from it, was malformed, or the
    /// bastion refused a deletion.
    Protocol,
    /// The handshake with the tunnel endpoint failed.
    TunnelConnect,
    /// A stream failed while a relay was running.
    Io,
    /// The local endpoint could not be set up.
    Bind,
}

impl Error {
    /// A short text for the failure, as the program reports it.
    pub fn message(&self) -> (text: &'static str)
        ensures
            text@ == match *self {
                Error::Auth => "identity token unavailable"@,
                Error::Protocol => "malformed bastion response"@,
                Error::TunnelConnect => "tunnel handshake failed"@,
                Error::Io => "stream failure during relay"@,
                Error::Bind => "listener setup failed"@,
            },
    {
        match self {
            Error::Auth => "identity token unavailable",
            Error::Protocol => "malformed bastion response",
            Error::TunnelConnect => "tunnel handshake failed",
            Error::Io => "stream failure during relay",
            Error::Bind => "listener setup failed",
        }
    }
}

} // verus!
