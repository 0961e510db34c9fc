//! The step from an answered connect call to a raw duplex stream.

use crate::handshake::{HandshakeResponse, SWITCHING_PROTOCOLS};
use vstd::prelude::*;

verus! {

/// Why no stream came out of a connect response.
#[derive(Clone, Copy, Debug, PartialEq, Eq, Structural)]
pub enum UpgradeError {
    /// The server answered with this status instead of the upgrade status.
    Rejected(u16),
}

/// The raw duplex stream that an accepted upgrade leaves behind. It holds
/// the response that it was made from, so a response yields at most one
/// stream, and a stream is only ever made from a response with the upgrade
/// status.
#[derive(Debug)]
pub struct TunnelStream {
    response: HandshakeResponse,
}

impl TunnelStream {
    #[verifier::type_invariant]
    spec fn made_from_upgrade(self) -> bool {
        self.response.status == SWITCHING_PROTOCOLS
    }

    /// The response that the stream was made from.
    pub closed spec fn origin(self) -> HandshakeResponse {
        self.response
    }

    /// The stream made from a response.
    pub closed spec fn of(response: HandshakeResponse) -> TunnelStream {
        TunnelStream { response }
    }

    /// The stream made from a response has that response behind it.
    pub proof fn origin_of(response: HandshakeResponse)
        ensures
            TunnelStream::of(response).origin() == response,
    {
    }

    /// Two streams made from the same response are the same stream.
    pub proof fn of_origin(self)
        ensures
            TunnelStream::of(self.origin()) == self,
    {
    }

    /// The status of the response behind the stream, which is always the
    /// upgrade status.
    pub fn status(&self) -> (status: u16)
        ensures
            status == self.origin().status,
            status == SWITCHING_PROTOCOLS,
    {
        proof {
            use_type_invariant(self);
        }
        self.response.status
    }
}

/// What a connect response leads to, by its status alone.
pub open spec fn negotiated(response: HandshakeResponse) -> Result<TunnelStream, UpgradeError> {
    if response.status == SWITCHING_PROTOCOLS {
        Ok(TunnelStream::of(response))
    } else {
        Err(UpgradeError::Rejected(response.status))
    }
}

/// Turns a connect response into a stream, or rejects it. The upgrade
/// status gives the one stream of that response; every other status is
/// rejected and kept in the error. The response is used up either way.
pub fn negotiate(response: HandshakeResponse) -> (result: Result<TunnelStream, UpgradeError>)
    ensures
        result == negotiated(response),
        response.status == SWITCHING_PROTOCOLS <==> result is Ok,
        result matches Ok(stream) ==> stream.origin() == response,
        response.status != SWITCHING_PROTOCOLS ==> result == Err::<TunnelStream, UpgradeError>(
            UpgradeError::Rejected(response.status),
        ),
{
    if response.status == SWITCHING_PROTOCOLS {
        Ok(TunnelStream { response })
    } else {
        Err(UpgradeError::Rejected(response.status))
    }
}

} // verus!
