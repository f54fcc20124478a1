use vstd::prelude::*;

verus! {

/// What can go wrong while opening, upgrading or using a stream. `X` is the
/// transport's own error type.
#[derive(Debug)]
pub enum NetError<X> {
    /// The target resolved to no candidate address.
    ResolutionFailure,
    /// Every candidate failed; carries the error of the last attempt.
    ConnectFailure(X),
    /// No secure-transport connector is available for the requested kind.
    TlsUnsupported,
    /// The secure-transport connector rejected the handshake.
    TlsHandshakeFailure(HandshakeFailure<X>),
    /// A transport-level operation failed.
    IoFailure(X),
    /// The stream was left unusable by a failed upgrade.
    StreamUnusable,
}

/// Why a secure-transport connector rejected a handshake.
#[derive(Debug)]
pub enum HandshakeFailure<X> {
    /// The domain is not a name the connector can verify the peer against.
    InvalidName,
    /// The handshake itself failed (certificate, protocol, peer).
    Rejected(X),
}

} // verus!
