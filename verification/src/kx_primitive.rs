//! The trusted boundary to `x25519-dalek`, `p256` and `p384`: names for the
//! public keys and shared secrets that they compute from plain private-key
//! bytes, and the calls that the key exchanges make.

use vstd::prelude::*;

verus! {

#[verifier::external_type_specification]
#[verifier::external_body]
pub struct ExEcError(p256::elliptic_curve::Error);

/// Length of an X25519 private key, public key and shared secret.
pub const X25519_LEN: usize = 32;

/// Length of a P-256 field element and scalar, and so of a P-256 shared
/// secret.
pub const P256_FIELD_LEN: usize = 32;

/// Length of a P-384 field element and scalar, and so of a P-384 shared
/// secret.
pub const P384_FIELD_LEN: usize = 48;

/// The SEC 1 tag of an uncompressed point.
pub const SEC1_UNCOMPRESSED: u8 = 0x04;

/// The X25519 base point: the u-coordinate 9, as 32 little-endian bytes.
pub open spec fn x25519_basepoint() -> Seq<u8> {
    Seq::new(X25519_LEN as nat, |i: int| if i == 0 { 9u8 } else { 0u8 })
}

/// The unsigned integer that `b` writes in big-endian order.
pub open spec fn be_uint(b: Seq<u8>) -> nat
    decreases b.len(),
{
    if b.len() == 0 {
        0
    } else {
        (be_uint(b.drop_last()) * 256 + b.last()) as nat
    }
}

/// The order of the P-256 group.
pub open spec fn p256_order() -> nat {
    0xffffffff00000000ffffffffffffffffbce6faada7179e84f3b9cac2fc632551nat
}

/// The order of the P-384 group.
pub open spec fn p384_order() -> nat {
    0xffffffffffffffffffffffffffffffffffffffffffffffffc7634d81f4372ddf581a0db248b0a77aecec196accc52973nat
}

/// `b` encodes a P-256 private key: a 32-byte big-endian integer that is
/// neither zero nor below the group order.
pub open spec fn p256_scalar_valid(b: Seq<u8>) -> bool {
    &&& b.len() == P256_FIELD_LEN
    &&& 0 < be_uint(b) < p256_order()
}

/// `b` encodes a P-384 private key: a 48-byte big-endian integer that is
/// neither zero nor below the group order.
pub open spec fn p384_scalar_valid(b: Seq<u8>) -> bool {
    &&& b.len() == P384_FIELD_LEN
    &&& 0 < be_uint(b) < p384_order()
}

/// The shapes of SEC 1 point encodings that can decode to a public key on a
/// curve whose field elements have `field_len` bytes: a compressed or compact
/// point (tag 2, 3 or 5, one coordinate) or an uncompressed point (tag 4, two
/// coordinates).
pub open spec fn sec1_point_shape(encoded: Seq<u8>, field_len: nat) -> bool {
    ||| encoded.len() == 1 + field_len && (encoded[0] == 2 || encoded[0] == 3 || encoded[0] == 5)
    ||| encoded.len() == 1 + 2 * field_len && encoded[0] == SEC1_UNCOMPRESSED
}

/// The uncompressed SEC 1 encoding of a point on a curve whose field
/// elements have `field_len` bytes has this shape.
pub open spec fn sec1_uncompressed_shape(encoded: Seq<u8>, field_len: nat) -> bool {
    encoded.len() == 1 + 2 * field_len && encoded[0] == SEC1_UNCOMPRESSED
}

/// What `x25519_dalek::x25519(k, u)` returns: the RFC 7748 X25519 function of
/// the (clamped) scalar `k` and the u-coordinate `u`.
pub uninterp spec fn x25519_fn(k: Seq<u8>, u: Seq<u8>) -> Seq<u8>;

/// What `p256::SecretKey::public_key` gives for the private key `scalar`,
/// encoded by `to_sec1_bytes`.
pub uninterp spec fn p256_public_key_of(scalar: Seq<u8>) -> Seq<u8>;

/// What `p384::SecretKey::public_key` gives for the private key `scalar`,
/// encoded by `to_sec1_bytes`.
pub uninterp spec fn p384_public_key_of(scalar: Seq<u8>) -> Seq<u8>;

/// Whether `p256::PublicKey::from_sec1_bytes` accepts `encoded`: a SEC 1
/// point that lies on P-256 and is not the identity.
pub uninterp spec fn p256_sec1_decodes(encoded: Seq<u8>) -> bool;

/// Whether `p384::PublicKey::from_sec1_bytes` accepts `encoded`: a SEC 1
/// point that lies on P-384 and is not the identity.
pub uninterp spec fn p384_sec1_decodes(encoded: Seq<u8>) -> bool;

/// What `p256::ecdh::diffie_hellman` gives, by `raw_secret_bytes`, for the
/// private key `scalar` and the peer's SEC 1 encoded public key `peer`: the
/// x-coordinate of the shared point.
pub uninterp spec fn p256_shared_secret(scalar: Seq<u8>, peer: Seq<u8>) -> Seq<u8>;

/// What `p384::ecdh::diffie_hellman` gives, by `raw_secret_bytes`, for the
/// private key `scalar` and the peer's SEC 1 encoded public key `peer`.
pub uninterp spec fn p384_shared_secret(scalar: Seq<u8>, peer: Seq<u8>) -> Seq<u8>;

/// `x25519_dalek::x25519`: the X25519 function of the scalar `k` and the
/// u-coordinate `u`. The contract claims the result is the name `x25519_fn`
/// of the two, 32 bytes long, and, as the function's documentation shows for
/// two parties, that where `u` is the public key `x25519(b, 9)` of some
/// scalar `b`, the result is what `b` gives with `k`'s public key.
#[verifier::external_body]
pub(crate) fn x25519(k: &[u8], u: &[u8]) -> (r: Vec<u8>)
    requires
        k@.len() == X25519_LEN,
        u@.len() == X25519_LEN,
    ensures
        r@ == x25519_fn(k@, u@),
        r@.len() == X25519_LEN,
        forall|b: Seq<u8>|
            b.len() == X25519_LEN && u@ == #[trigger] x25519_fn(b, x25519_basepoint()) ==> r@
                == x25519_fn(b, x25519_fn(k@, x25519_basepoint())),
{
    let k: [u8; 32] = k.try_into().unwrap();
    let u: [u8; 32] = u.try_into().unwrap();
    x25519_dalek::x25519(k, u).to_vec()
}

/// `p256::SecretKey::public_key` of the private key read by
/// `SecretKey::from_slice`, encoded by `to_sec1_bytes`. The contract claims:
/// the key is read exactly where it is a valid P-256 scalar, and its public
/// key is then the name `p256_public_key_of` of it, in uncompressed SEC 1
/// form (P-256 does not compress points).
#[verifier::external_body]
pub(crate) fn p256_public_key(scalar: &[u8]) -> (r: Result<Vec<u8>, p256::elliptic_curve::Error>)
    requires
        scalar@.len() == P256_FIELD_LEN,
    ensures
        r is Ok <==> p256_scalar_valid(scalar@),
        r matches Ok(pk) ==> pk@ == p256_public_key_of(scalar@) && sec1_uncompressed_shape(
            pk@,
            P256_FIELD_LEN as nat,
        ),
{
    let secret = p256::SecretKey::from_slice(scalar)?;
    Ok(secret.public_key().to_sec1_bytes().into_vec())
}

/// `p256::ecdh::diffie_hellman` of the private key `scalar` and the peer's
/// key read by `p256::PublicKey::from_sec1_bytes`, taken by
/// `raw_secret_bytes`. The contract claims: the peer's key is read exactly
/// where `p256_sec1_decodes` holds, and only from the SEC 1 shapes that
/// `sec1::EncodedPoint::from_bytes` accepts; the secret is then the name
/// `p256_shared_secret` of the two, 32 bytes long; and where the peer's key
/// is the public key of a valid scalar `b`, the secret is what `b` gives with
/// `scalar`'s public key (the Diffie-Hellman agreement).
#[verifier::external_body]
pub(crate) fn p256_diffie_hellman(scalar: &[u8], peer: &[u8]) -> (r: Result<
    Vec<u8>,
    p256::elliptic_curve::Error,
>)
    requires
        p256_scalar_valid(scalar@),
    ensures
        r is Ok <==> p256_sec1_decodes(peer@),
        r is Ok ==> sec1_point_shape(peer@, P256_FIELD_LEN as nat),
        r matches Ok(ss) ==> ss@ == p256_shared_secret(scalar@, peer@) && ss@.len()
            == P256_FIELD_LEN,
        forall|b: Seq<u8>|
            p256_scalar_valid(b) && peer@ == #[trigger] p256_public_key_of(b) ==> r is Ok && r->Ok_0@
                == p256_shared_secret(b, p256_public_key_of(scalar@)),
{
    let secret = p256::NonZeroScalar::try_from(scalar).unwrap();
    let their = p256::PublicKey::from_sec1_bytes(peer)?;
    Ok(p256::ecdh::diffie_hellman(secret, their.as_affine()).raw_secret_bytes().to_vec())
}

/// `p384::SecretKey::public_key` of the private key read by
/// `SecretKey::from_slice`, encoded by `to_sec1_bytes`. The contract claims:
/// the key is read exactly where it is a valid P-384 scalar, and its public
/// key is then the name `p384_public_key_of` of it, in uncompressed SEC 1
/// form (P-384 does not compress points).
#[verifier::external_body]
pub(crate) fn p384_public_key(scalar: &[u8]) -> (r: Result<Vec<u8>, p256::elliptic_curve::Error>)
    requires
        scalar@.len() == P384_FIELD_LEN,
    ensures
        r is Ok <==> p384_scalar_valid(scalar@),
        r matches Ok(pk) ==> pk@ == p384_public_key_of(scalar@) && sec1_uncompressed_shape(
            pk@,
            P384_FIELD_LEN as nat,
        ),
{
    let secret = p384::SecretKey::from_slice(scalar)?;
    Ok(secret.public_key().to_sec1_bytes().into_vec())
}

/// `p384::ecdh::diffie_hellman` of the private key `scalar` and the peer's
/// key read by `p384::PublicKey::from_sec1_bytes`, taken by
/// `raw_secret_bytes`. The contract claims the same as for P-256: success
/// exactly where `p384_sec1_decodes` holds; the secret is the name
/// `p384_shared_secret`, 48 bytes long; and the Diffie-Hellman agreement.
#[verifier::external_body]
pub(crate) fn p384_diffie_hellman(scalar: &[u8], peer: &[u8]) -> (r: Result<
    Vec<u8>,
    p256::elliptic_curve::Error,
>)
    requires
        p384_scalar_valid(scalar@),
    ensures
        r is Ok <==> p384_sec1_decodes(peer@),
        r is Ok ==> sec1_point_shape(peer@, P384_FIELD_LEN as nat),
        r matches Ok(ss) ==> ss@ == p384_shared_secret(scalar@, peer@) && ss@.len()
            == P384_FIELD_LEN,
        forall|b: Seq<u8>|
            p384_scalar_valid(b) && peer@ == #[trigger] p384_public_key_of(b) ==> r is Ok && r->Ok_0@
                == p384_shared_secret(b, p384_public_key_of(scalar@)),
{
    let secret = p384::NonZeroScalar::try_from(scalar).unwrap();
    let their = p384::PublicKey::from_sec1_bytes(peer)?;
    Ok(p384::ecdh::diffie_hellman(secret, their.as_affine()).raw_secret_bytes().to_vec())
}

} // verus!
