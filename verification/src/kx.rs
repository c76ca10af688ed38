//! The key-exchange groups of the provider: X25519, P-256 and P-384, each
//! with an ephemeral key pair that is used for one exchange.

use vstd::prelude::*;
use crate::error::{PeerMisbehaved, TlsError};
use crate::kx_primitive::{
    p256_diffie_hellman, p256_public_key, p256_public_key_of, p256_scalar_valid,
    p256_sec1_decodes, p256_shared_secret, p384_diffie_hellman, p384_public_key,
    p384_public_key_of, p384_scalar_valid, p384_sec1_decodes, p384_shared_secret,
    sec1_point_shape, sec1_uncompressed_shape, x25519, x25519_basepoint, x25519_fn,
    P256_FIELD_LEN, P384_FIELD_LEN, X25519_LEN,
};
use crate::os_rng_try_fill_bytes;

verus! {

/// The key-exchange groups that this provider offers.
#[allow(non_camel_case_types)]
#[derive(Debug, Clone, Copy, PartialEq, Eq, Structural)]
pub enum NamedGroup {
    X25519,
    secp256r1,
    secp384r1,
}

/// The error of a key share that cannot be used.
pub open spec fn invalid_key_share() -> TlsError {
    TlsError::PeerMisbehaved(PeerMisbehaved::InvalidKeyShare)
}

/// The error of a draw from the random source that failed.
pub open spec fn random_failure() -> TlsError {
    TlsError::FailedToGetRandomBytes
}

/// `n` bytes from the operating system's random source, or the failure.
fn random_bytes(n: usize) -> (r: Result<Vec<u8>, TlsError>)
    ensures
        r matches Ok(b) ==> b@.len() == n,
        r matches Err(e) ==> e == random_failure(),
{
    let mut bytes: Vec<u8> = Vec::with_capacity(n);
    let mut i: usize = 0;
    while i < n
        invariant
            i <= n,
            bytes@.len() == i,
        decreases n - i,
    {
        bytes.push(0);
        i = i + 1;
    }
    match os_rng_try_fill_bytes(bytes.as_mut_slice()) {
        Ok(()) => Ok(bytes),
        Err(_) => Err(TlsError::FailedToGetRandomBytes),
    }
}

/// The X25519 base point as bytes.
fn x25519_basepoint_bytes() -> (b: Vec<u8>)
    ensures
        b@ == x25519_basepoint(),
{
    let mut b: Vec<u8> = Vec::with_capacity(X25519_LEN);
    b.push(9);
    let mut i: usize = 1;
    while i < X25519_LEN
        invariant
            1 <= i <= X25519_LEN,
            b@.len() == i,
            forall|j: int| 0 <= j < i ==> b@[j] == x25519_basepoint()[j],
        decreases X25519_LEN - i,
    {
        b.push(0);
        i = i + 1;
    }
    assert(b@ =~= x25519_basepoint());
    b
}

/// The error of a random draw that is not a private key of the group.
pub open spec fn scalar_out_of_range(msg: Seq<char>) -> bool {
    msg == "ephemeral private key out of range"@
}

/// The X25519 key-exchange group.
#[derive(Debug)]
pub struct X25519;

/// An X25519 exchange under way: a fresh private key and its public key.
pub struct X25519KeyExchange {
    priv_key: Vec<u8>,
    pub_key: Vec<u8>,
}

impl X25519 {
    /// The group's name.
    pub fn name(&self) -> (g: NamedGroup)
        ensures
            g == NamedGroup::X25519,
    {
        NamedGroup::X25519
    }

    /// Starts an exchange with a private key of 32 fresh random bytes (see
    /// `X25519KeyExchange::from_private_key`). Fails only where the random
    /// source fails.
    pub fn start(&self) -> (r: Result<X25519KeyExchange, TlsError>)
        ensures
            r matches Ok(kx) ==> {
                &&& kx.scalar().len() == X25519_LEN
                &&& kx.pub_key_bytes() == x25519_fn(kx.scalar(), x25519_basepoint())
            },
            r matches Err(e) ==> e == random_failure(),
    {
        match random_bytes(X25519_LEN) {
            Ok(draw) => Ok(X25519KeyExchange::from_private_key(draw)),
            Err(e) => Err(e),
        }
    }
}

impl X25519KeyExchange {
    #[verifier::type_invariant]
    spec fn well_formed(self) -> bool {
        &&& self.priv_key@.len() == X25519_LEN
        &&& self.pub_key@ == x25519_fn(self.priv_key@, x25519_basepoint())
        &&& self.pub_key@.len() == X25519_LEN
    }

    /// The private key of this exchange.
    pub closed spec fn scalar(self) -> Seq<u8> {
        self.priv_key@
    }

    /// The public key that this exchange sends to the peer.
    pub closed spec fn pub_key_bytes(self) -> Seq<u8> {
        self.pub_key@
    }

    /// The exchange whose private key is `priv_key` (32 bytes, clamped by the
    /// X25519 function when used); its public key is the X25519 function of
    /// the key and the base point.
    pub fn from_private_key(priv_key: Vec<u8>) -> (kx: X25519KeyExchange)
        requires
            priv_key@.len() == X25519_LEN,
        ensures
            kx.scalar() == priv_key@,
            kx.pub_key_bytes() == x25519_fn(priv_key@, x25519_basepoint()),
    {
        let base = x25519_basepoint_bytes();
        let pub_key = x25519(priv_key.as_slice(), base.as_slice());
        X25519KeyExchange { priv_key, pub_key }
    }

    /// Completes the exchange with the peer's public key. A key share that is
    /// not 32 bytes long is refused; any other gives the X25519 function of
    /// the private key and the share. Where the share is the public key of
    /// some private key `b`, that secret is what `b` gives with this
    /// exchange's public key: both sides agree.
    pub fn complete(self, peer: &[u8]) -> (r: Result<Vec<u8>, TlsError>)
        ensures
            r is Err <==> peer@.len() != X25519_LEN,
            r matches Err(e) ==> e == invalid_key_share(),
            r matches Ok(ss) ==> ss@ == x25519_fn(self.scalar(), peer@) && ss@.len() == X25519_LEN,
            forall|b: Seq<u8>|
                b.len() == X25519_LEN && peer@.len() == X25519_LEN && peer@ == #[trigger] x25519_fn(
                    b,
                    x25519_basepoint(),
                ) ==> r is Ok && r->Ok_0@ == x25519_fn(b, self.pub_key_bytes()),
    {
        proof {
            use_type_invariant(&self);
        }
        if peer.len() != X25519_LEN {
            return Err(TlsError::PeerMisbehaved(PeerMisbehaved::InvalidKeyShare));
        }
        Ok(x25519(self.priv_key.as_slice(), peer))
    }

    /// The public key that this exchange sends to the peer: the X25519
    /// function of its private key and the base point.
    pub fn pub_key(&self) -> (pk: &[u8])
        ensures
            pk@ == self.pub_key_bytes(),
            pk@ == x25519_fn(self.scalar(), x25519_basepoint()),
            pk@.len() == X25519_LEN,
    {
        proof {
            use_type_invariant(self);
        }
        self.pub_key.as_slice()
    }

    /// The group of this exchange.
    pub fn group(&self) -> (g: NamedGroup)
        ensures
            g == NamedGroup::X25519,
    {
        X25519.name()
    }
}

/// The NIST P-256 (secp256r1) key-exchange group.
#[derive(Debug)]
#[allow(non_camel_case_types)]
pub struct SecP256R1;

/// A P-256 exchange under way: a fresh private key and its public key in
/// uncompressed SEC 1 form.
#[allow(non_camel_case_types)]
pub struct SecP256R1KeyExchange {
    priv_key: Vec<u8>,
    pub_key: Vec<u8>,
}

impl SecP256R1 {
    /// The group's name.
    pub fn name(&self) -> (g: NamedGroup)
        ensures
            g == NamedGroup::secp256r1,
    {
        NamedGroup::secp256r1
    }

    /// Starts an exchange with a private key of 32 fresh random bytes, read
    /// as a big-endian integer; its public key is that key's public key in
    /// uncompressed SEC 1 form. A draw that is zero or not below the group
    /// order is thrown away and drawn again. Fails where the random source
    /// fails, or, in principle, after `u64::MAX` draws out of range.
    pub fn start(&self) -> (r: Result<SecP256R1KeyExchange, TlsError>)
        ensures
            r matches Ok(kx) ==> {
                &&& p256_scalar_valid(kx.scalar())
                &&& kx.pub_key_bytes() == p256_public_key_of(kx.scalar())
                &&& sec1_uncompressed_shape(kx.pub_key_bytes(), P256_FIELD_LEN as nat)
            },
            r matches Err(e) ==> e == random_failure() || (e matches TlsError::General(msg)
                && scalar_out_of_range(msg@)),
    {
        let mut draws: u64 = 0;
        loop
            decreases u64::MAX - draws,
        {
            if draws == u64::MAX {
                return Err(TlsError::General("ephemeral private key out of range".to_owned()));
            }
            let draw = match random_bytes(P256_FIELD_LEN) {
                Ok(b) => b,
                Err(e) => {
                    return Err(e);
                },
            };
            match SecP256R1KeyExchange::from_draw(draw) {
                Some(kx) => {
                    return Ok(kx);
                },
                None => {},
            }
            draws = draws + 1;
        }
    }
}

impl SecP256R1KeyExchange {
    #[verifier::type_invariant]
    spec fn well_formed(self) -> bool {
        &&& p256_scalar_valid(self.priv_key@)
        &&& self.pub_key@ == p256_public_key_of(self.priv_key@)
        &&& sec1_uncompressed_shape(self.pub_key@, P256_FIELD_LEN as nat)
    }

    /// The private key of this exchange.
    pub closed spec fn scalar(self) -> Seq<u8> {
        self.priv_key@
    }

    /// The public key that this exchange sends to the peer.
    pub closed spec fn pub_key_bytes(self) -> Seq<u8> {
        self.pub_key@
    }

    /// The exchange whose private key is `draw`, where `draw` is a P-256
    /// private key (a big-endian integer neither zero nor below the group
    /// order); `None` for any other draw.
    pub fn from_draw(draw: Vec<u8>) -> (r: Option<SecP256R1KeyExchange>)
        requires
            draw@.len() == P256_FIELD_LEN,
        ensures
            r is Some <==> p256_scalar_valid(draw@),
            r matches Some(kx) ==> kx.scalar() == draw@ && kx.pub_key_bytes()
                == p256_public_key_of(draw@) && sec1_uncompressed_shape(
                kx.pub_key_bytes(),
                P256_FIELD_LEN as nat,
            ),
    {
        match p256_public_key(draw.as_slice()) {
            Ok(pub_key) => Some(SecP256R1KeyExchange { priv_key: draw, pub_key }),
            Err(_) => None,
        }
    }

    /// Completes the exchange with the peer's SEC 1 encoded public key. A key
    /// share that does not decode to a point of P-256 is refused; any other
    /// gives the shared secret of the private key and the share. Where the
    /// share is the public key of some private key `b`, that secret is what
    /// `b` gives with this exchange's public key: both sides agree.
    pub fn complete(self, peer: &[u8]) -> (r: Result<Vec<u8>, TlsError>)
        ensures
            r is Err <==> !p256_sec1_decodes(peer@),
            !sec1_point_shape(peer@, P256_FIELD_LEN as nat) ==> r is Err,
            r matches Err(e) ==> e == invalid_key_share(),
            r matches Ok(ss) ==> ss@ == p256_shared_secret(self.scalar(), peer@) && ss@.len()
                == P256_FIELD_LEN,
            forall|b: Seq<u8>|
                p256_scalar_valid(b) && peer@ == #[trigger] p256_public_key_of(b) ==> r is Ok
                    && r->Ok_0@ == p256_shared_secret(b, self.pub_key_bytes()),
    {
        proof {
            use_type_invariant(&self);
        }
        match p256_diffie_hellman(self.priv_key.as_slice(), peer) {
            Err(_) => Err(TlsError::PeerMisbehaved(PeerMisbehaved::InvalidKeyShare)),
            Ok(ss) => Ok(ss),
        }
    }

    /// The public key that this exchange sends to the peer: its private
    /// key's public key in uncompressed SEC 1 form.
    pub fn pub_key(&self) -> (pk: &[u8])
        ensures
            pk@ == self.pub_key_bytes(),
            pk@ == p256_public_key_of(self.scalar()),
            sec1_uncompressed_shape(pk@, P256_FIELD_LEN as nat),
    {
        proof {
            use_type_invariant(self);
        }
        self.pub_key.as_slice()
    }

    /// The group of this exchange.
    pub fn group(&self) -> (g: NamedGroup)
        ensures
            g == NamedGroup::secp256r1,
    {
        SecP256R1.name()
    }
}

/// The NIST P-384 (secp384r1) key-exchange group.
#[derive(Debug)]
#[allow(non_camel_case_types)]
pub struct SecP384R1;

/// A P-384 exchange under way: a fresh private key and its public key in
/// uncompressed SEC 1 form.
#[allow(non_camel_case_types)]
pub struct SecP384R1KeyExchange {
    priv_key: Vec<u8>,
    pub_key: Vec<u8>,
}

impl SecP384R1 {
    /// The group's name.
    pub fn name(&self) -> (g: NamedGroup)
        ensures
            g == NamedGroup::secp384r1,
    {
        NamedGroup::secp384r1
    }

    /// Starts an exchange with a private key of 48 fresh random bytes, read
    /// as a big-endian integer; its public key is that key's public key in
    /// uncompressed SEC 1 form. A draw that is zero or not below the group
    /// order is thrown away and drawn again. Fails where the random source
    /// fails, or, in principle, after `u64::MAX` draws out of range.
    pub fn start(&self) -> (r: Result<SecP384R1KeyExchange, TlsError>)
        ensures
            r matches Ok(kx) ==> {
                &&& p384_scalar_valid(kx.scalar())
                &&& kx.pub_key_bytes() == p384_public_key_of(kx.scalar())
                &&& sec1_uncompressed_shape(kx.pub_key_bytes(), P384_FIELD_LEN as nat)
            },
            r matches Err(e) ==> e == random_failure() || (e matches TlsError::General(msg)
                && scalar_out_of_range(msg@)),
    {
        let mut draws: u64 = 0;
        loop
            decreases u64::MAX - draws,
        {
            if draws == u64::MAX {
                return Err(TlsError::General("ephemeral private key out of range".to_owned()));
            }
            let draw = match random_bytes(P384_FIELD_LEN) {
                Ok(b) => b,
                Err(e) => {
                    return Err(e);
                },
            };
            match SecP384R1KeyExchange::from_draw(draw) {
                Some(kx) => {
                    return Ok(kx);
                },
                None => {},
            }
            draws = draws + 1;
        }
    }
}

impl SecP384R1KeyExchange {
    #[verifier::type_invariant]
    spec fn well_formed(self) -> bool {
        &&& p384_scalar_valid(self.priv_key@)
        &&& self.pub_key@ == p384_public_key_of(self.priv_key@)
        &&& sec1_uncompressed_shape(self.pub_key@, P384_FIELD_LEN as nat)
    }

    /// The private key of this exchange.
    pub closed spec fn scalar(self) -> Seq<u8> {
        self.priv_key@
    }

    /// The public key that this exchange sends to the peer.
    pub closed spec fn pub_key_bytes(self) -> Seq<u8> {
        self.pub_key@
    }

    /// The exchange whose private key is `draw`, where `draw` is a P-384
    /// private key (a big-endian integer neither zero nor below the group
    /// order); `None` for any other draw.
    pub fn from_draw(draw: Vec<u8>) -> (r: Option<SecP384R1KeyExchange>)
        requires
            draw@.len() == P384_FIELD_LEN,
        ensures
            r is Some <==> p384_scalar_valid(draw@),
            r matches Some(kx) ==> kx.scalar() == draw@ && kx.pub_key_bytes()
                == p384_public_key_of(draw@) && sec1_uncompressed_shape(
                kx.pub_key_bytes(),
                P384_FIELD_LEN as nat,
            ),
    {
        match p384_public_key(draw.as_slice()) {
            Ok(pub_key) => Some(SecP384R1KeyExchange { priv_key: draw, pub_key }),
            Err(_) => None,
        }
    }

    /// Completes the exchange with the peer's SEC 1 encoded public key. A key
    /// share that does not decode to a point of P-384 is refused; any other
    /// gives the shared secret of the private key and the share. Where the
    /// share is the public key of some private key `b`, that secret is what
    /// `b` gives with this exchange's public key: both sides agree.
    pub fn complete(self, peer: &[u8]) -> (r: Result<Vec<u8>, TlsError>)
        ensures
            r is Err <==> !p384_sec1_decodes(peer@),
            !sec1_point_shape(peer@, P384_FIELD_LEN as nat) ==> r is Err,
            r matches Err(e) ==> e == invalid_key_share(),
            r matches Ok(ss) ==> ss@ == p384_shared_secret(self.scalar(), peer@) && ss@.len()
                == P384_FIELD_LEN,
            forall|b: Seq<u8>|
                p384_scalar_valid(b) && peer@ == #[trigger] p384_public_key_of(b) ==> r is Ok
                    && r->Ok_0@ == p384_shared_secret(b, self.pub_key_bytes()),
    {
        proof {
            use_type_invariant(&self);
        }
        match p384_diffie_hellman(self.priv_key.as_slice(), peer) {
            Err(_) => Err(TlsError::PeerMisbehaved(PeerMisbehaved::InvalidKeyShare)),
            Ok(ss) => Ok(ss),
        }
    }

    /// The public key that this exchange sends to the peer: its private
    /// key's public key in uncompressed SEC 1 form.
    pub fn pub_key(&self) -> (pk: &[u8])
        ensures
            pk@ == self.pub_key_bytes(),
            pk@ == p384_public_key_of(self.scalar()),
            sec1_uncompressed_shape(pk@, P384_FIELD_LEN as nat),
    {
        proof {
            use_type_invariant(self);
        }
        self.pub_key.as_slice()
    }

    /// The group of this exchange.
    pub fn group(&self) -> (g: NamedGroup)
        ensures
            g == NamedGroup::secp384r1,
    {
        SecP384R1.name()
    }
}

/// Every key-exchange group of the provider, in order of preference.
pub fn all_kx_groups() -> (gs: Vec<NamedGroup>)
    ensures
        gs@ == seq![NamedGroup::X25519, NamedGroup::secp256r1, NamedGroup::secp384r1],
{
    let mut gs: Vec<NamedGroup> = Vec::new();
    gs.push(X25519.name());
    gs.push(SecP256R1.name());
    gs.push(SecP384R1.name());
    assert(gs@ =~= seq![NamedGroup::X25519, NamedGroup::secp256r1, NamedGroup::secp384r1]);
    gs
}

} // verus!
