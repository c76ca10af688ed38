//! Error values returned by the record layer, the key exchanges and the provider.

use vstd::prelude::*;

verus! {

/// How a peer broke the protocol.
#[derive(Debug, Clone, Copy, PartialEq, Eq, Structural)]
pub enum PeerMisbehaved {
    /// A protected record carried the `change_cipher_spec` content type.
    IllegalMiddleboxChangeCipherSpec,
    /// A TLS 1.3 inner plaintext was empty or held only zero padding.
    IllegalTlsInnerPlaintext,
    /// The peer's key share could not be used for the key exchange.
    InvalidKeyShare,
}

/// The errors of this provider, one variant for each error that the TLS
/// stack can be handed back.
#[derive(Debug, Clone, PartialEq, Eq)]
pub enum TlsError {
    /// Sealing a record failed.
    EncryptError,
    /// Opening a record failed: it was not authentic.
    DecryptError,
    /// A record was longer than the protocol allows.
    PeerSentOversizedRecord,
    /// The peer broke the protocol.
    PeerMisbehaved(PeerMisbehaved),
    /// The random source failed.
    FailedToGetRandomBytes,
    /// Any other failure, with a description.
    General(String),
}

/// The operating system's random source failed.
#[derive(Debug, Clone, Copy, PartialEq, Eq, Structural)]
pub struct GetRandomFailed;

/// The requested operation is not offered by this algorithm.
#[derive(Debug, Clone, Copy, PartialEq, Eq, Structural)]
pub struct UnsupportedOperationError;

} // verus!
