//! The error taxonomy of the relay middleware. Failures of the wrapped
//! transport are passed through unchanged under their own tag, so callers can
//! tell relay-layer failures from chain-layer failures; relay-layer failures
//! carry no provider-specific detail by design.

use vstd::prelude::*;

verus! {

/// What a submission can fail with.
#[derive(Debug)]
pub enum OzRelayerMiddlewareError<E> {
    /// An error of the wrapped inner transport, passed through unchanged.
    MiddlewareError(E),
    /// The identity provider rejected the credential, the handshake or relay
    /// call failed on the network, or the relay answered with a status other
    /// than 200.
    AuthenticationError(),
    /// The relay answered 200 but the body held no usable transaction
    /// identifier.
    UnknownResponse(),
}

impl<E> OzRelayerMiddlewareError<E> {
    /// Tags an error of the wrapped inner transport.
    pub fn from(src: E) -> (r: Self)
        ensures
            r == OzRelayerMiddlewareError::MiddlewareError(src),
    {
        OzRelayerMiddlewareError::MiddlewareError(src)
    }
}

} // verus!
