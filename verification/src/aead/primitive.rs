//! The trusted boundary to the `chacha20poly1305` crate: its error type, names
//! for what it seals and opens, and the calls that the record layer makes.

use vstd::prelude::*;
use chacha20poly1305::{AeadInPlace, KeyInit, KeySizeUser};
use crate::record::NONCE_LEN;

verus! {

/// The bytes that ChaCha20-Poly1305 adds to a plaintext: its tag.
pub const CHACHAPOLY1305_OVERHEAD: usize = 16;

/// The key length of ChaCha20-Poly1305.
pub const CHACHAPOLY1305_KEY_LEN: usize = 32;

#[verifier::external_type_specification]
#[verifier::external_body]
pub struct ExAeadError(chacha20poly1305::Error);

/// What `chacha20poly1305::ChaCha20Poly1305` produces when it seals
/// `plaintext` under `key`, `nonce` and `aad`: the ciphertext followed by the
/// 16-byte tag.
pub uninterp spec fn chacha20poly1305_sealed(
    key: Seq<u8>,
    nonce: Seq<u8>,
    aad: Seq<u8>,
    plaintext: Seq<u8>,
) -> Seq<u8>;

/// What `chacha20poly1305::ChaCha20Poly1305` gives back when it opens
/// `ciphertext` (ciphertext followed by tag) under `key`, `nonce` and `aad`:
/// the plaintext, or `None` where the tag does not authenticate it.
pub uninterp spec fn chacha20poly1305_opened(
    key: Seq<u8>,
    nonce: Seq<u8>,
    aad: Seq<u8>,
    ciphertext: Seq<u8>,
) -> Option<Seq<u8>>;

/// A message of `len` bytes is short enough for the 32-bit ChaCha20 block
/// counter.
pub open spec fn chacha20poly1305_fits(len: int) -> bool {
    len / 64 < 0xffff_ffff
}

/// A message longer than `u32::MAX - 2` whole 64-byte blocks but shorter
/// than `u32::MAX` blocks passes the crate's length check and then runs the
/// ChaCha20 block counter (which starts at 1) out: the cipher panics on it.
pub open spec fn chacha20poly1305_overruns(len: int) -> bool {
    64 * 0xffff_fffe < len < 64 * 0xffff_ffff
}

/// `<ChaCha20Poly1305 as KeySizeUser>::key_size`, which the crate defines as
/// its `U32` key size: the contract claims the result is 32.
#[verifier::external_body]
pub(crate) fn chacha20poly1305_key_size() -> (n: usize)
    ensures
        n == CHACHAPOLY1305_KEY_LEN,
{
    chacha20poly1305::ChaCha20Poly1305::key_size()
}

/// `AeadInPlace::encrypt_in_place` of `chacha20poly1305::ChaCha20Poly1305`
/// under the given key (the cipher value is the key, as `KeyInit::new` shows).
/// The contract claims: the call fails exactly where the plaintext has
/// `u32::MAX` blocks of 64 bytes or more, and then leaves the buffer as it
/// was; otherwise the buffer becomes the sealed message, which is 16 bytes
/// longer than the plaintext. Plaintexts on which the cipher panics are
/// left out.
#[verifier::external_body]
pub(crate) fn chacha20poly1305_encrypt_in_place(
    key: &[u8],
    nonce: &[u8],
    aad: &[u8],
    buffer: &mut Vec<u8>,
) -> (r: Result<(), chacha20poly1305::Error>)
    requires
        key@.len() == CHACHAPOLY1305_KEY_LEN,
        nonce@.len() == NONCE_LEN,
        !chacha20poly1305_overruns(old(buffer)@.len() as int),
    ensures
        r is Ok <==> chacha20poly1305_fits(old(buffer)@.len() as int),
        r is Ok ==> final(buffer)@ == chacha20poly1305_sealed(key@, nonce@, aad@, old(buffer)@),
        r is Ok ==> final(buffer)@.len() == old(buffer)@.len() + CHACHAPOLY1305_OVERHEAD,
        r is Err ==> final(buffer)@ == old(buffer)@,
{
    let cipher = chacha20poly1305::ChaCha20Poly1305::new(chacha20poly1305::Key::from_slice(key));
    cipher.encrypt_in_place(chacha20poly1305::Nonce::from_slice(nonce), aad, buffer)
}

/// `AeadInPlace::decrypt_in_place` of `chacha20poly1305::ChaCha20Poly1305`
/// under the given key. The contract claims: the call succeeds exactly where
/// the named opening gives a plaintext, and the buffer then holds it; and a
/// message that this key, nonce and additional data sealed from a plaintext
/// short enough to be sealed opens to that plaintext. Which other inputs
/// authenticate is left to the name, but a message shorter than the tag
/// never does. Messages on which the cipher panics are left out.
#[verifier::external_body]
pub(crate) fn chacha20poly1305_decrypt_in_place(
    key: &[u8],
    nonce: &[u8],
    aad: &[u8],
    buffer: &mut Vec<u8>,
) -> (r: Result<(), chacha20poly1305::Error>)
    requires
        key@.len() == CHACHAPOLY1305_KEY_LEN,
        nonce@.len() == NONCE_LEN,
        !(old(buffer)@.len() >= CHACHAPOLY1305_OVERHEAD && chacha20poly1305_overruns(
            old(buffer)@.len() - CHACHAPOLY1305_OVERHEAD,
        )),
    ensures
        r is Ok <==> chacha20poly1305_opened(key@, nonce@, aad@, old(buffer)@) is Some,
        old(buffer)@.len() < CHACHAPOLY1305_OVERHEAD ==> r is Err,
        r is Ok ==> final(buffer)@ == chacha20poly1305_opened(
            key@,
            nonce@,
            aad@,
            old(buffer)@,
        )->Some_0,
        forall|pt: Seq<u8>|
            chacha20poly1305_fits(pt.len() as int) && old(buffer)@
                == #[trigger] chacha20poly1305_sealed(key@, nonce@, aad@, pt) ==> r is Ok
                && final(buffer)@ == pt,
{
    let cipher = chacha20poly1305::ChaCha20Poly1305::new(chacha20poly1305::Key::from_slice(key));
    cipher.decrypt_in_place(chacha20poly1305::Nonce::from_slice(nonce), aad, buffer)
}

} // verus!
