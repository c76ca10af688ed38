//! A cryptography provider for TLS built on the RustCrypto crates: the
//! ChaCha20-Poly1305 record protection of TLS 1.3 (and TLS 1.2), the X25519,
//! P-256 and P-384 key exchanges, and the provider's random source.

pub mod aead;
pub mod error;
pub mod kx;
pub mod kx_primitive;
pub mod record;

use vstd::prelude::*;
use rand_core::RngCore;
use crate::error::{GetRandomFailed, TlsError};

verus! {

#[verifier::external_type_specification]
#[verifier::external_body]
pub struct ExRandError(rand_core::Error);

/// `RngCore::try_fill_bytes` of `rand_core::OsRng`: fills `bytes` from the
/// operating system's random source. What the bytes become, and whether the
/// source fails, is chance; the contract claims that the buffer keeps its
/// length, and that an empty buffer succeeds untouched (`getrandom` does not
/// ask the system for no bytes).
#[verifier::external_body]
pub(crate) fn os_rng_try_fill_bytes(bytes: &mut [u8]) -> (r: Result<(), rand_core::Error>)
    ensures
        final(bytes)@.len() == old(bytes)@.len(),
        old(bytes)@.len() == 0 ==> r is Ok && final(bytes)@ == old(bytes)@,
{
    rand_core::OsRng.try_fill_bytes(bytes)
}

/// What the provider answers for an outcome of its random source: success
/// for success, `GetRandomFailed` for any failure.
pub fn random_outcome(source: Result<(), rand_core::Error>) -> (r: Result<(), GetRandomFailed>)
    ensures
        r is Ok <==> source is Ok,
{
    match source {
        Ok(()) => Ok(()),
        Err(_) => Err(GetRandomFailed),
    }
}

/// The provider: its random source, and the services that it declines.
#[derive(Debug)]
pub struct Provider;

/// What a provider that supports session tickets hands out from `ticketer`.
/// This provider never makes one.
pub struct TicketProducer;

impl Provider {
    /// Session tickets are not supported: always fails, with a general error
    /// that says so.
    pub fn ticketer(&self) -> (r: Result<TicketProducer, TlsError>)
        ensures
            r matches Err(TlsError::General(msg)) && msg@ == "Ticketing not supported"@,
    {
        Err(TlsError::General("Ticketing not supported".to_owned()))
    }

    /// This provider is not FIPS-certified.
    pub fn fips(&self) -> (b: bool)
        ensures
            !b,
    {
        false
    }

    /// Fills `bytes` from the operating system's random source; fails with
    /// `GetRandomFailed` where the source fails (see `random_outcome`). The
    /// buffer keeps its length either way, and an empty buffer always
    /// succeeds.
    pub fn fill(&self, bytes: &mut [u8]) -> (r: Result<(), GetRandomFailed>)
        ensures
            final(bytes)@.len() == old(bytes)@.len(),
            old(bytes)@.len() == 0 ==> r is Ok,
    {
        let outcome = os_rng_try_fill_bytes(bytes);
        random_outcome(outcome)
    }
}

} // verus!
