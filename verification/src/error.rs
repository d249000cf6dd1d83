//! The ways in which a single tunnelled connection can fail.

use vstd::prelude::*;

verus! {

/// Why a connection was given up. Every failure ends one connection only.
#[derive(Clone, Copy, Debug, PartialEq, Eq, Structural)]
pub enum TunnelError {
    /// The bytes received do not match the expected framing.
    MalformedRequest,
    /// The address type is well formed but not handled (notably IPv6).
    UnsupportedAddressKind,
    /// The request asks for a command other than CONNECT.
    UnsupportedCommand,
    /// The destination could not be reached.
    DialFailure,
    /// Certificate or protocol negotiation failed.
    TlsHandshakeError,
    /// A read or a write on an open transport failed.
    IoError,
}

impl TunnelError {
    /// The text of `describe` for each failure.
    pub open spec fn description(self) -> Seq<char> {
        match self {
            TunnelError::MalformedRequest => "malformed request"@,
            TunnelError::UnsupportedAddressKind => "unsupported address kind"@,
            TunnelError::UnsupportedCommand => "unsupported command"@,
            TunnelError::DialFailure => "dial failure"@,
            TunnelError::TlsHandshakeError => "TLS handshake error"@,
            TunnelError::IoError => "I/O error"@,
        }
    }

    /// A short human-readable name of the failure, for reports.
    pub fn describe(&self) -> (text: &'static str)
        ensures
            text@ == self.description(),
    {
        match self {
            TunnelError::MalformedRequest => "malformed request",
            TunnelError::UnsupportedAddressKind => "unsupported address kind",
            TunnelError::UnsupportedCommand => "unsupported command",
            TunnelError::DialFailure => "dial failure",
            TunnelError::TlsHandshakeError => "TLS handshake error",
            TunnelError::IoError => "I/O error",
        }
    }
}

} // verus!
