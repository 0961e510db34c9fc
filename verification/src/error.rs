//! The ways in which a tunnel can fail.

use vstd::prelude::*;

verus! {

/// Every failure that the agent tells apart.
#[derive(Clone, Copy, Debug, PartialEq, Eq, Structural)]
pub enum TunnelError {
    /// A handshake call could not be sent, or the upgraded transport could
    /// not be taken over.
    Transport,
    /// The connect call was answered with a status other than the upgrade
    /// status; the status is kept.
    HandshakeRejected(u16),
    /// A read or a write on the upgraded stream failed.
    StreamIo,
    /// The server closed the stream: a read returned no bytes.
    PeerClosed,
}

impl TunnelError {
    pub open spec fn is_connection_failure(self) -> bool {
        self is Transport || self is HandshakeRejected
    }

    /// Whether the failure happened before a stream existed.
    pub fn connection_failure(self) -> (yes: bool)
        ensures
            yes == self.is_connection_failure(),
    {
        match self {
            TunnelError::Transport => true,
            TunnelError::HandshakeRejected(_) => true,
            TunnelError::StreamIo => false,
            TunnelError::PeerClosed => false,
        }
    }
}

} // verus!
