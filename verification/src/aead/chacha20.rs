//! ChaCha20-Poly1305 record protection for TLS 1.3 and TLS 1.2.

use vstd::prelude::*;
use crate::error::{TlsError, UnsupportedOperationError};
use crate::record::{
    into_tls13_unpadded_message, lemma_unpad_inner_plaintext, make_nonce, make_tls12_aad,
    make_tls13_aad, plain_result_view, record_nonce, tls12_aad, tls13_aad, tls13_inner_plaintext,
    tls13_unpad, lemma_tls13_aad_is_record_header, lemma_tls12_aad_is_seq_and_header,
    lemma_unpad_padded, record_header, u64_be_bytes, zeros, MessageView, OpaqueMessage, PlainMessage, CONTENT_TYPE_APPLICATION_DATA,
    CONTENT_TYPE_CHANGE_CIPHER_SPEC, MAX_FRAGMENT_LEN, NONCE_LEN, TLS12_VERSION, TLS13_VERSION,
};
use crate::aead::primitive::{
    chacha20poly1305_decrypt_in_place, chacha20poly1305_encrypt_in_place, chacha20poly1305_fits,
    chacha20poly1305_key_size, chacha20poly1305_opened, chacha20poly1305_overruns,
    chacha20poly1305_sealed, CHACHAPOLY1305_KEY_LEN, CHACHAPOLY1305_OVERHEAD,
};

verus! {

/// The protected payload of a TLS 1.3 record: the inner plaintext sealed
/// under the record's nonce, with the outer header as additional data.
pub open spec fn tls13_sealed_payload(key: Seq<u8>, iv: Seq<u8>, seq: u64, m: MessageView) -> Seq<u8> {
    let pt = tls13_inner_plaintext(m);
    chacha20poly1305_sealed(
        key,
        record_nonce(iv, seq),
        tls13_aad((pt.len() + CHACHAPOLY1305_OVERHEAD) as usize),
        pt,
    )
}

/// `payload` is what TLS 1.3 protection of `m` under `key`, `iv` and `seq`
/// gives.
pub open spec fn tls13_sealed_for(
    key: Seq<u8>,
    iv: Seq<u8>,
    seq: u64,
    m: MessageView,
    payload: Seq<u8>,
) -> bool {
    &&& payload == tls13_sealed_payload(key, iv, seq, m)
    &&& payload.len() == m.payload.len() + 1 + CHACHAPOLY1305_OVERHEAD
}

/// A protected payload that is shorter than the tag, or whose ciphertext is
/// too long for the ChaCha20 block counter, is refused without being opened.
pub open spec fn unopenable(len: int) -> bool {
    len < CHACHAPOLY1305_OVERHEAD || chacha20poly1305_overruns(len - CHACHAPOLY1305_OVERHEAD)
}

/// What opening a TLS 1.3 record payload gives: the record, or the error.
pub open spec fn tls13_opened(key: Seq<u8>, iv: Seq<u8>, seq: u64, payload: Seq<u8>) -> Result<
    MessageView,
    TlsError,
> {
    if unopenable(payload.len() as int) {
        Err(TlsError::DecryptError)
    } else {
        match chacha20poly1305_opened(
            key,
            record_nonce(iv, seq),
            tls13_aad(payload.len() as usize),
            payload,
        ) {
            Some(pt) => tls13_unpad(pt),
            None => Err(TlsError::DecryptError),
        }
    }
}

/// The protected payload of a TLS 1.2 record.
pub open spec fn tls12_sealed_payload(key: Seq<u8>, iv: Seq<u8>, seq: u64, m: MessageView) -> Seq<u8> {
    chacha20poly1305_sealed(
        key,
        record_nonce(iv, seq),
        tls12_aad(seq, m.typ, m.version, m.payload.len() as usize),
        m.payload,
    )
}

/// `c` is what TLS 1.2 protection of `m` under `key`, `iv` and `seq` gives.
pub open spec fn tls12_sealed_for(
    key: Seq<u8>,
    iv: Seq<u8>,
    seq: u64,
    m: MessageView,
    c: MessageView,
) -> bool {
    &&& c.typ == m.typ
    &&& c.version == m.version
    &&& c.payload == tls12_sealed_payload(key, iv, seq, m)
    &&& c.payload.len() == m.payload.len() + CHACHAPOLY1305_OVERHEAD
}

/// What opening a TLS 1.2 record gives: the record, or the error. A
/// record shorter than the tag cannot be authentic.
pub open spec fn tls12_opened(key: Seq<u8>, iv: Seq<u8>, seq: u64, c: MessageView) -> Result<
    MessageView,
    TlsError,
> {
    if unopenable(c.payload.len() as int) {
        Err(TlsError::DecryptError)
    } else {
        match chacha20poly1305_opened(
            key,
            record_nonce(iv, seq),
            tls12_aad(seq, c.typ, c.version, (c.payload.len() - CHACHAPOLY1305_OVERHEAD) as usize),
            c.payload,
        ) {
            Some(pt) => Ok(MessageView { typ: c.typ, version: c.version, payload: pt }),
            None => Err(TlsError::DecryptError),
        }
    }
}

/// TLS 1.3 protection fixes the protected payload: it is a function of the
/// key, the IV, the sequence number and the record alone.
pub proof fn lemma_tls13_sealed_unique(
    key: Seq<u8>,
    iv: Seq<u8>,
    seq: u64,
    m: MessageView,
    p1: Seq<u8>,
    p2: Seq<u8>,
)
    requires
        tls13_sealed_for(key, iv, seq, m, p1),
        tls13_sealed_for(key, iv, seq, m, p2),
    ensures
        p1 == p2,
{
}

/// TLS 1.2 protection fixes the protected record: it is a function of the
/// key, the IV, the sequence number and the record alone.
pub proof fn lemma_tls12_sealed_unique(
    key: Seq<u8>,
    iv: Seq<u8>,
    seq: u64,
    m: MessageView,
    c1: MessageView,
    c2: MessageView,
)
    requires
        tls12_sealed_for(key, iv, seq, m, c1),
        tls12_sealed_for(key, iv, seq, m, c2),
    ensures
        c1 == c2,
{
}

/// TLS 1.3 protection (RFC 8446, 5.2): the protected payload of the record
/// `c` made from `m` is the ChaCha20-Poly1305 sealing, under the IV
/// exclusive-or'ed with the sequence number, of `m`'s payload followed by its
/// content type, with `c`'s own header as additional data: type
/// `application_data`, version TLS 1.2, and the protected length, which is
/// the plaintext length plus the type byte and the 16-byte tag.
pub proof fn lemma_tls13_seal_authenticates_header(
    key: Seq<u8>,
    iv: Seq<u8>,
    seq: u64,
    m: MessageView,
    c: MessageView,
)
    requires
        c.typ == CONTENT_TYPE_APPLICATION_DATA,
        c.version == TLS12_VERSION,
        tls13_sealed_for(key, iv, seq, m, c.payload),
    ensures
        c.payload.len() == m.payload.len() + 1 + 16,
        c.payload == chacha20poly1305_sealed(
            key,
            record_nonce(iv, seq),
            record_header(c.typ, c.version, c.payload.len() as usize),
            m.payload.push(m.typ),
        ),
{
    lemma_tls13_aad_is_record_header(c.payload.len() as usize);
}

/// TLS 1.3 opening (RFC 8446, 5.2 and 5.4): a protected payload that
/// ChaCha20-Poly1305 opens, under the IV exclusive-or'ed with the sequence
/// number and with the outer header (type `application_data`, version
/// TLS 1.2, the protected length) as additional data, to a record's payload,
/// its content type and any number of zero bytes, gives that record back as
/// TLS 1.3, wherever its type is neither 0 nor `change_cipher_spec` and the
/// inner plaintext fits in a fragment and its type byte.
pub proof fn lemma_tls13_open_padded(
    key: Seq<u8>,
    iv: Seq<u8>,
    seq: u64,
    ct: Seq<u8>,
    m: MessageView,
    k: nat,
)
    requires
        m.typ != 0,
        m.typ != CONTENT_TYPE_CHANGE_CIPHER_SPEC,
        m.payload.len() + 1 + k <= MAX_FRAGMENT_LEN + 1,
        ct.len() == m.payload.len() + 1 + k + 16,
        chacha20poly1305_opened(
            key,
            record_nonce(iv, seq),
            record_header(CONTENT_TYPE_APPLICATION_DATA, TLS12_VERSION, ct.len() as usize),
            ct,
        ) == Some(m.payload.push(m.typ) + zeros(k)),
    ensures
        tls13_opened(key, iv, seq, ct) == Ok::<MessageView, TlsError>(
            MessageView { typ: m.typ, version: TLS13_VERSION, payload: m.payload },
        ),
{
    lemma_tls13_aad_is_record_header(ct.len() as usize);
    lemma_unpad_padded(m, k);
}

/// TLS 1.2 protection (RFC 5246, 6.2.3.3; RFC 7905): the record `c` made
/// from `m` keeps `m`'s type and version, and its payload is the
/// ChaCha20-Poly1305 sealing of `m`'s payload, under the IV exclusive-or'ed
/// with the sequence number, with the sequence number and `m`'s header (its
/// type, version and plaintext length) as additional data.
pub proof fn lemma_tls12_seal_authenticates_header(
    key: Seq<u8>,
    iv: Seq<u8>,
    seq: u64,
    m: MessageView,
    c: MessageView,
)
    requires
        tls12_sealed_for(key, iv, seq, m, c),
    ensures
        c.typ == m.typ,
        c.version == m.version,
        c.payload.len() == m.payload.len() + 16,
        c.payload == chacha20poly1305_sealed(
            key,
            record_nonce(iv, seq),
            u64_be_bytes(seq) + record_header(m.typ, m.version, m.payload.len() as usize),
            m.payload,
        ),
{
    lemma_tls12_aad_is_seq_and_header(seq, m.typ, m.version, m.payload.len() as usize);
}

/// TLS 1.2 opening (RFC 5246, 6.2.3.3; RFC 7905): a record whose payload
/// ChaCha20-Poly1305 opens to `pt`, under the IV exclusive-or'ed with the
/// sequence number and with the sequence number and the record's header
/// carrying the plaintext length as additional data, gives `pt` back with the
/// record's type and version.
pub proof fn lemma_tls12_open(key: Seq<u8>, iv: Seq<u8>, seq: u64, c: MessageView, pt: Seq<u8>)
    requires
        c.payload.len() == pt.len() + 16,
        !chacha20poly1305_overruns(pt.len() as int),
        chacha20poly1305_opened(
            key,
            record_nonce(iv, seq),
            u64_be_bytes(seq) + record_header(c.typ, c.version, pt.len() as usize),
            c.payload,
        ) == Some(pt),
    ensures
        tls12_opened(key, iv, seq, c) == Ok::<MessageView, TlsError>(
            MessageView { typ: c.typ, version: c.version, payload: pt },
        ),
{
    lemma_tls12_aad_is_seq_and_header(seq, c.typ, c.version, pt.len() as usize);
}

/// Whether a protected payload of `len` bytes is refused without being
/// opened.
fn unopenable_len(len: usize) -> (b: bool)
    ensures
        b == unopenable(len as int),
{
    if len < CHACHAPOLY1305_OVERHEAD {
        true
    } else {
        let ct_len: u64 = (len - CHACHAPOLY1305_OVERHEAD) as u64;
        64 * 0xffff_fffeu64 < ct_len && ct_len < 64 * 0xffff_ffffu64
    }
}

/// The ChaCha20-Poly1305 AEAD algorithm, as TLS uses it.
#[derive(Debug)]
pub struct Chacha20Poly1305;

/// The shape of the TLS 1.2 key block that this algorithm takes.
#[derive(Debug, Clone, Copy, PartialEq, Eq, Structural)]
pub struct KeyBlockShape {
    pub enc_key_len: usize,
    pub fixed_iv_len: usize,
    pub explicit_nonce_len: usize,
}

/// The traffic secrets of a connection, handed out for use elsewhere.
#[derive(Debug, Clone)]
pub enum ConnectionTrafficSecrets {
    Chacha20Poly1305 { key: Vec<u8>, iv: Vec<u8> },
}

/// The record protection of one direction of a TLS 1.3 connection.
pub struct Tls13Cipher {
    key: Vec<u8>,
    iv: Vec<u8>,
}

/// The record protection of one direction of a TLS 1.2 connection.
pub struct Tls12Cipher {
    key: Vec<u8>,
    iv: Vec<u8>,
}

impl Chacha20Poly1305 {
    /// The TLS 1.3 record protection that seals with `key` and `iv`.
    pub fn encrypter(&self, key: Vec<u8>, iv: Vec<u8>) -> (c: Tls13Cipher)
        requires
            key@.len() == CHACHAPOLY1305_KEY_LEN,
            iv@.len() == NONCE_LEN,
        ensures
            c.key() == key@,
            c.iv() == iv@,
    {
        Tls13Cipher { key, iv }
    }

    /// The TLS 1.3 record protection that opens with `key` and `iv`.
    pub fn decrypter(&self, key: Vec<u8>, iv: Vec<u8>) -> (c: Tls13Cipher)
        requires
            key@.len() == CHACHAPOLY1305_KEY_LEN,
            iv@.len() == NONCE_LEN,
        ensures
            c.key() == key@,
            c.iv() == iv@,
    {
        Tls13Cipher { key, iv }
    }

    /// The key length of the algorithm.
    pub fn key_len(&self) -> (n: usize)
        ensures
            n == CHACHAPOLY1305_KEY_LEN,
    {
        chacha20poly1305_key_size()
    }

    /// Hands the TLS 1.3 key and IV out as traffic secrets.
    pub fn extract_keys(&self, key: Vec<u8>, iv: Vec<u8>) -> (r: Result<
        ConnectionTrafficSecrets,
        UnsupportedOperationError,
    >)
        ensures
            r matches Ok(ConnectionTrafficSecrets::Chacha20Poly1305 { key: k, iv: i }) && k@
                == key@ && i@ == iv@,
    {
        Ok(ConnectionTrafficSecrets::Chacha20Poly1305 { key, iv })
    }

    /// The TLS 1.2 record protection that seals with `key` and `iv`.
    pub fn tls12_encrypter(&self, key: Vec<u8>, iv: &[u8], _extra: &[u8]) -> (c: Tls12Cipher)
        requires
            key@.len() == CHACHAPOLY1305_KEY_LEN,
            iv@.len() == NONCE_LEN,
        ensures
            c.key() == key@,
            c.iv() == iv@,
    {
        Tls12Cipher { key, iv: vstd::slice::slice_to_vec(iv) }
    }

    /// The TLS 1.2 record protection that opens with `key` and `iv`.
    pub fn tls12_decrypter(&self, key: Vec<u8>, iv: &[u8]) -> (c: Tls12Cipher)
        requires
            key@.len() == CHACHAPOLY1305_KEY_LEN,
            iv@.len() == NONCE_LEN,
        ensures
            c.key() == key@,
            c.iv() == iv@,
    {
        Tls12Cipher { key, iv: vstd::slice::slice_to_vec(iv) }
    }

    /// The TLS 1.2 key block: a 32-byte key and a 12-byte fixed IV, with no
    /// explicit nonce; it agrees with the key length and the nonce length.
    pub fn key_block_shape(&self) -> (s: KeyBlockShape)
        ensures
            s == (KeyBlockShape { enc_key_len: 32, fixed_iv_len: 12, explicit_nonce_len: 0 }),
            s.enc_key_len == CHACHAPOLY1305_KEY_LEN,
            s.fixed_iv_len == NONCE_LEN,
    {
        KeyBlockShape { enc_key_len: 32, fixed_iv_len: 12, explicit_nonce_len: 0 }
    }

    /// Hands the TLS 1.2 key and IV out as traffic secrets.
    pub fn tls12_extract_keys(&self, key: Vec<u8>, iv: &[u8], _explicit: &[u8]) -> (r: Result<
        ConnectionTrafficSecrets,
        UnsupportedOperationError,
    >)
        requires
            iv@.len() == NONCE_LEN,
        ensures
            r matches Ok(ConnectionTrafficSecrets::Chacha20Poly1305 { key: k, iv: i }) && k@
                == key@ && i@ == iv@,
    {
        Ok(ConnectionTrafficSecrets::Chacha20Poly1305 { key, iv: vstd::slice::slice_to_vec(iv) })
    }
}

impl Tls13Cipher {
    #[verifier::type_invariant]
    spec fn well_formed(self) -> bool {
        &&& self.key@.len() == CHACHAPOLY1305_KEY_LEN
        &&& self.iv@.len() == NONCE_LEN
    }

    /// The key that this protection uses.
    pub closed spec fn key(self) -> Seq<u8> {
        self.key@
    }

    /// The IV that this protection uses.
    pub closed spec fn iv(self) -> Seq<u8> {
        self.iv@
    }

    /// The length of the protected payload of a record whose plaintext
    /// payload has `payload_len` bytes: the content type byte and the tag
    /// are added.
    pub fn encrypted_payload_len(&self, payload_len: usize) -> (n: usize)
        requires
            payload_len + 1 + CHACHAPOLY1305_OVERHEAD <= usize::MAX,
        ensures
            n == payload_len + 1 + CHACHAPOLY1305_OVERHEAD,
    {
        payload_len + 1 + CHACHAPOLY1305_OVERHEAD
    }

    /// Protects the record `m`, the `seq`-th of the connection: an
    /// `application_data` record of the TLS 1.2 wire version whose payload is
    /// the sealed inner plaintext. Fails only where the message is too long
    /// for the cipher.
    pub fn encrypt(&mut self, m: PlainMessage, seq: u64) -> (r: Result<OpaqueMessage, TlsError>)
        requires
            m.payload@.len() + 1 + CHACHAPOLY1305_OVERHEAD <= usize::MAX,
            !chacha20poly1305_overruns(m.payload@.len() + 1int),
        ensures
            *final(self) == *old(self),
            r is Err <==> !chacha20poly1305_fits(m.payload@.len() + 1int),
            r matches Err(e) ==> e == TlsError::EncryptError,
            r matches Ok(c) ==> {
                &&& c.typ == CONTENT_TYPE_APPLICATION_DATA
                &&& c.version == TLS12_VERSION
                &&& tls13_sealed_for(old(self).key(), old(self).iv(), seq, m@, c.payload@)
            },
    {
        proof {
            use_type_invariant(&*self);
        }
        let total_len = self.encrypted_payload_len(m.payload.len());
        let mut payload: Vec<u8> = Vec::with_capacity(total_len);
        payload.extend_from_slice(m.payload.as_slice());
        payload.push(m.typ);
        assert(payload@ =~= tls13_inner_plaintext(m@));
        let nonce = make_nonce(self.iv.as_slice(), seq);
        let aad = make_tls13_aad(total_len);
        match chacha20poly1305_encrypt_in_place(
            self.key.as_slice(),
            nonce.as_slice(),
            aad.as_slice(),
            &mut payload,
        ) {
            Ok(()) => Ok(
                OpaqueMessage { typ: CONTENT_TYPE_APPLICATION_DATA, version: TLS12_VERSION, payload },
            ),
            Err(_) => Err(TlsError::EncryptError),
        }
    }

    /// Removes the protection of the TLS 1.3 record `m`, the `seq`-th of the
    /// connection, and its padding. A record that `encrypt` made from a
    /// plaintext record `p` under the same key, IV and sequence number gives
    /// `p` back, as a TLS 1.3 record, wherever `p`'s type is neither 0 nor
    /// `change_cipher_spec` and its payload fits in one fragment.
    pub fn decrypt(&mut self, m: OpaqueMessage, seq: u64) -> (r: Result<PlainMessage, TlsError>)
        ensures
            *final(self) == *old(self),
            plain_result_view(r) == tls13_opened(old(self).key(), old(self).iv(), seq, m.payload@),
            forall|p: MessageView|
                #![trigger tls13_sealed_for(old(self).key(), old(self).iv(), seq, p, m.payload@)]
                p.typ != 0 && p.typ != CONTENT_TYPE_CHANGE_CIPHER_SPEC && p.payload.len()
                    <= MAX_FRAGMENT_LEN && tls13_sealed_for(
                    old(self).key(),
                    old(self).iv(),
                    seq,
                    p,
                    m.payload@,
                ) ==> plain_result_view(r) == Ok::<MessageView, TlsError>(
                    MessageView { typ: p.typ, version: TLS13_VERSION, payload: p.payload },
                ),
    {
        proof {
            use_type_invariant(&*self);
        }
        let ghost ct = m.payload@;
        let typ = m.typ;
        let version = m.version;
        let mut payload = m.payload;
        if unopenable_len(payload.len()) {
            return Err(TlsError::DecryptError);
        }
        let nonce = make_nonce(self.iv.as_slice(), seq);
        let aad = make_tls13_aad(payload.len());
        let opened = chacha20poly1305_decrypt_in_place(
            self.key.as_slice(),
            nonce.as_slice(),
            aad.as_slice(),
            &mut payload,
        );
        proof {
            assert forall|p: MessageView|
                p.typ != 0 && p.typ != CONTENT_TYPE_CHANGE_CIPHER_SPEC && p.payload.len()
                    <= MAX_FRAGMENT_LEN && #[trigger] tls13_sealed_for(
                    self.key(),
                    self.iv(),
                    seq,
                    p,
                    ct,
                ) implies opened is Ok && payload@ == tls13_inner_plaintext(p) by {
                let pt = tls13_inner_plaintext(p);
                assert(chacha20poly1305_fits(pt.len() as int));
                assert(ct == chacha20poly1305_sealed(self.key@, nonce@, aad@, pt));
            }
        }
        match opened {
            Ok(()) => {
                let r = into_tls13_unpadded_message(typ, version, payload);
                proof {
                    assert forall|p: MessageView|
                        p.typ != 0 && p.typ != CONTENT_TYPE_CHANGE_CIPHER_SPEC && p.payload.len()
                            <= MAX_FRAGMENT_LEN && #[trigger] tls13_sealed_for(
                            self.key(),
                            self.iv(),
                            seq,
                            p,
                            ct,
                        ) implies plain_result_view(r) == Ok::<MessageView, TlsError>(
                        MessageView { typ: p.typ, version: TLS13_VERSION, payload: p.payload },
                    ) by {
                        lemma_unpad_inner_plaintext(p);
                    }
                }
                r
            },
            Err(_) => Err(TlsError::DecryptError),
        }
    }
}

impl Tls12Cipher {
    #[verifier::type_invariant]
    spec fn well_formed(self) -> bool {
        &&& self.key@.len() == CHACHAPOLY1305_KEY_LEN
        &&& self.iv@.len() == NONCE_LEN
    }

    /// The key that this protection uses.
    pub closed spec fn key(self) -> Seq<u8> {
        self.key@
    }

    /// The IV that this protection uses.
    pub closed spec fn iv(self) -> Seq<u8> {
        self.iv@
    }

    /// The length of the protected payload of a record whose plaintext
    /// payload has `payload_len` bytes: the tag is added.
    pub fn encrypted_payload_len(&self, payload_len: usize) -> (n: usize)
        requires
            payload_len + CHACHAPOLY1305_OVERHEAD <= usize::MAX,
        ensures
            n == payload_len + CHACHAPOLY1305_OVERHEAD,
    {
        payload_len + CHACHAPOLY1305_OVERHEAD
    }

    /// Protects the TLS 1.2 record `m`, the `seq`-th of the connection; the
    /// record keeps its type and version. Fails only where the message is too
    /// long for the cipher.
    pub fn encrypt(&mut self, m: PlainMessage, seq: u64) -> (r: Result<OpaqueMessage, TlsError>)
        requires
            m.payload@.len() + CHACHAPOLY1305_OVERHEAD <= usize::MAX,
            !chacha20poly1305_overruns(m.payload@.len() as int),
        ensures
            *final(self) == *old(self),
            r is Err <==> !chacha20poly1305_fits(m.payload@.len() as int),
            r matches Err(e) ==> e == TlsError::EncryptError,
            r matches Ok(c) ==> tls12_sealed_for(old(self).key(), old(self).iv(), seq, m@, c@),
    {
        proof {
            use_type_invariant(&*self);
        }
        let total_len = self.encrypted_payload_len(m.payload.len());
        let mut payload: Vec<u8> = Vec::with_capacity(total_len);
        payload.extend_from_slice(m.payload.as_slice());
        assert(payload@ =~= m.payload@);
        let nonce = make_nonce(self.iv.as_slice(), seq);
        let aad = make_tls12_aad(seq, m.typ, m.version, m.payload.len());
        match chacha20poly1305_encrypt_in_place(
            self.key.as_slice(),
            nonce.as_slice(),
            aad.as_slice(),
            &mut payload,
        ) {
            Ok(()) => Ok(OpaqueMessage { typ: m.typ, version: m.version, payload }),
            Err(_) => Err(TlsError::EncryptError),
        }
    }

    /// Removes the protection of the TLS 1.2 record `m`, the `seq`-th of the
    /// connection; the record keeps its type and version. A record shorter
    /// than the tag is refused as not authentic. A record that `encrypt` made
    /// from `p` under the same key, IV and sequence number gives `p` back.
    pub fn decrypt(&mut self, m: OpaqueMessage, seq: u64) -> (r: Result<PlainMessage, TlsError>)
        ensures
            *final(self) == *old(self),
            plain_result_view(r) == tls12_opened(old(self).key(), old(self).iv(), seq, m@),
            forall|p: MessageView|
                #![trigger tls12_sealed_for(old(self).key(), old(self).iv(), seq, p, m@)]
                chacha20poly1305_fits(p.payload.len() as int) && !chacha20poly1305_overruns(
                    p.payload.len() as int,
                ) && tls12_sealed_for(
                    old(self).key(),
                    old(self).iv(),
                    seq,
                    p,
                    m@,
                ) ==> plain_result_view(r) == Ok::<MessageView, TlsError>(p),
    {
        proof {
            use_type_invariant(&*self);
        }
        let ghost c = m@;
        let typ = m.typ;
        let version = m.version;
        let mut payload = m.payload;
        if unopenable_len(payload.len()) {
            return Err(TlsError::DecryptError);
        }
        let nonce = make_nonce(self.iv.as_slice(), seq);
        let aad = make_tls12_aad(seq, typ, version, payload.len() - CHACHAPOLY1305_OVERHEAD);
        let opened = chacha20poly1305_decrypt_in_place(
            self.key.as_slice(),
            nonce.as_slice(),
            aad.as_slice(),
            &mut payload,
        );
        proof {
            assert forall|p: MessageView|
                chacha20poly1305_fits(p.payload.len() as int) && !chacha20poly1305_overruns(
                    p.payload.len() as int,
                ) && #[trigger] tls12_sealed_for(
                    self.key(),
                    self.iv(),
                    seq,
                    p,
                    c,
                ) implies opened is Ok && payload@ == p.payload by {
                assert(c.payload == chacha20poly1305_sealed(self.key@, nonce@, aad@, p.payload));
            }
        }
        match opened {
            Ok(()) => Ok(PlainMessage { typ, version, payload }),
            Err(_) => Err(TlsError::DecryptError),
        }
    }
}

} // verus!
