//! The record-layer framing shared by the AEAD ciphers: record messages, the
//! per-record nonce, the additional data of TLS 1.3 and TLS 1.2, and the
//! TLS 1.3 inner-plaintext padding, whose removal rustls does.

use vstd::prelude::*;
use crate::error::{TlsError, PeerMisbehaved};
use rustls::crypto::cipher::InboundOpaqueMessage;
use rustls::{ContentType, ProtocolVersion};
use rustls::Error as RustlsError;
use rustls::PeerMisbehaved as RustlsPeerMisbehaved;

verus! {

/// Content type of a `change_cipher_spec` record.
pub const CONTENT_TYPE_CHANGE_CIPHER_SPEC: u8 = 0x14;

/// Content type of an `application_data` record.
pub const CONTENT_TYPE_APPLICATION_DATA: u8 = 0x17;

/// The protocol version TLS 1.2 on the wire.
pub const TLS12_VERSION: u16 = 0x0303;

/// The protocol version TLS 1.3 on the wire.
pub const TLS13_VERSION: u16 = 0x0304;

/// The longest plaintext fragment that a record may carry.
pub const MAX_FRAGMENT_LEN: usize = 16384;

/// Length of the per-record nonce of the AEAD ciphers.
pub const NONCE_LEN: usize = 12;

/// The mathematical value of a record: content type, version and payload.
pub struct MessageView {
    pub typ: u8,
    pub version: u16,
    pub payload: Seq<u8>,
}

/// A record before protection (or after it was removed).
#[derive(Debug)]
pub struct PlainMessage {
    pub typ: u8,
    pub version: u16,
    pub payload: Vec<u8>,
}

/// A protected record as it travels on the wire.
#[derive(Debug)]
pub struct OpaqueMessage {
    pub typ: u8,
    pub version: u16,
    pub payload: Vec<u8>,
}

impl View for PlainMessage {
    type V = MessageView;

    open spec fn view(&self) -> MessageView {
        MessageView { typ: self.typ, version: self.version, payload: self.payload@ }
    }
}

impl View for OpaqueMessage {
    type V = MessageView;

    open spec fn view(&self) -> MessageView {
        MessageView { typ: self.typ, version: self.version, payload: self.payload@ }
    }
}

/// The value of a record-layer result.
pub open spec fn plain_result_view(r: Result<PlainMessage, TlsError>) -> Result<MessageView, TlsError> {
    match r {
        Ok(m) => Ok(m@),
        Err(e) => Err(e),
    }
}

/// The eight big-endian bytes of `x`.
pub open spec fn u64_be_bytes(x: u64) -> Seq<u8> {
    Seq::new(8, |i: int| ((x >> ((56 - 8 * i) as u64)) & 0xff) as u8)
}

/// The two big-endian bytes of `x`.
pub open spec fn u16_be_bytes(x: u16) -> Seq<u8> {
    seq![(x >> 8u16) as u8, (x & 0xff) as u8]
}

/// The per-record nonce: the IV exclusive-or'ed with the sequence number,
/// written as a 96-bit big-endian integer.
pub open spec fn record_nonce(iv: Seq<u8>, seq: u64) -> Seq<u8> {
    Seq::new(
        NONCE_LEN as nat,
        |i: int| iv[i] ^ (if i < 4 { 0u8 } else { u64_be_bytes(seq)[i - 4] }),
    )
}

/// The TLS 1.3 additional data for a record whose protected payload has the
/// given length: the outer record header, with the length's low 16 bits.
pub open spec fn tls13_aad(payload_len: usize) -> Seq<u8> {
    seq![
        CONTENT_TYPE_APPLICATION_DATA,
        0x03u8,
        0x03u8,
        (payload_len >> 8usize) as u8,
        (payload_len & 0xff) as u8,
    ]
}

/// The TLS 1.2 additional data: sequence number, content type, version and
/// the plaintext length's low 16 bits.
pub open spec fn tls12_aad(seq: u64, typ: u8, version: u16, len: usize) -> Seq<u8> {
    u64_be_bytes(seq) + seq![typ] + u16_be_bytes(version) + u16_be_bytes(len as u16)
}

/// `k` zero bytes.
pub open spec fn zeros(k: nat) -> Seq<u8> {
    Seq::new(k, |i: int| 0u8)
}

/// The header of a record as it is written on the wire: content type,
/// version, and the low 16 bits of the payload length, big-endian.
pub open spec fn record_header(typ: u8, version: u16, len: usize) -> Seq<u8> {
    seq![typ] + u16_be_bytes(version) + u16_be_bytes(len as u16)
}

/// The TLS 1.3 inner plaintext of a record: its payload, then its content type.
pub open spec fn tls13_inner_plaintext(m: MessageView) -> Seq<u8> {
    m.payload.push(m.typ)
}

/// The index of the last non-zero byte of `p`, or -1 where there is none.
pub open spec fn last_nonzero(p: Seq<u8>) -> int
    decreases p.len(),
{
    if p.len() == 0 {
        -1
    } else if p.last() != 0 {
        p.len() - 1
    } else {
        last_nonzero(p.drop_last())
    }
}

/// Decoding a TLS 1.3 inner plaintext: the zero padding at the end is removed
/// and the last non-zero byte is the content type. Too long a record, a record
/// of padding only and a protected `change_cipher_spec` are refused.
pub open spec fn tls13_unpad(p: Seq<u8>) -> Result<MessageView, TlsError> {
    if p.len() > MAX_FRAGMENT_LEN + 1 {
        Err(TlsError::PeerSentOversizedRecord)
    } else {
        let k = last_nonzero(p);
        if k < 0 {
            Err(TlsError::PeerMisbehaved(PeerMisbehaved::IllegalTlsInnerPlaintext))
        } else if p[k] == CONTENT_TYPE_CHANGE_CIPHER_SPEC {
            Err(TlsError::PeerMisbehaved(PeerMisbehaved::IllegalMiddleboxChangeCipherSpec))
        } else if k > MAX_FRAGMENT_LEN {
            Err(TlsError::PeerSentOversizedRecord)
        } else {
            Ok(MessageView { typ: p[k], version: TLS13_VERSION, payload: p.take(k) })
        }
    }
}

/// Writes `x` as eight big-endian bytes.
pub fn put_u64(x: u64) -> (out: Vec<u8>)
    ensures
        out@ == u64_be_bytes(x),
{
    let mut out: Vec<u8> = Vec::with_capacity(8);
    let mut i: usize = 0;
    while i < 8
        invariant
            i <= 8,
            out@.len() == i,
            forall|j: int| 0 <= j < i ==> out@[j] == u64_be_bytes(x)[j],
        decreases 8 - i,
    {
        let shift: u64 = 56 - 8 * (i as u64);
        out.push(((x >> shift) & 0xff) as u8);
        i = i + 1;
    }
    assert(out@ =~= u64_be_bytes(x));
    out
}

/// Writes `x` as two big-endian bytes.
pub fn put_u16(x: u16) -> (out: Vec<u8>)
    ensures
        out@ == u16_be_bytes(x),
{
    let mut out: Vec<u8> = Vec::with_capacity(2);
    out.push((x >> 8u16) as u8);
    out.push((x & 0xff) as u8);
    assert(out@ =~= u16_be_bytes(x));
    out
}

/// The nonce of the record with sequence number `seq`: `iv ^ seq`, where
/// `seq` is taken as a 96-bit big-endian integer.
pub fn make_nonce(iv: &[u8], seq: u64) -> (nonce: Vec<u8>)
    requires
        iv@.len() == NONCE_LEN,
    ensures
        nonce@ == record_nonce(iv@, seq),
{
    let seq_bytes = put_u64(seq);
    let mut nonce: Vec<u8> = Vec::with_capacity(NONCE_LEN);
    let mut i: usize = 0;
    while i < NONCE_LEN
        invariant
            i <= NONCE_LEN,
            iv@.len() == NONCE_LEN,
            seq_bytes@ == u64_be_bytes(seq),
            nonce@.len() == i,
            forall|j: int| 0 <= j < i ==> nonce@[j] == record_nonce(iv@, seq)[j],
        decreases NONCE_LEN - i,
    {
        let pad: u8 = if i < 4 { 0 } else { seq_bytes[i - 4] };
        nonce.push(iv[i] ^ pad);
        i = i + 1;
    }
    assert(nonce@ =~= record_nonce(iv@, seq));
    nonce
}

/// The TLS 1.3 additional data for a protected payload of `payload_len` bytes.
pub fn make_tls13_aad(payload_len: usize) -> (aad: Vec<u8>)
    ensures
        aad@ == tls13_aad(payload_len),
{
    let mut aad: Vec<u8> = Vec::with_capacity(5);
    aad.push(CONTENT_TYPE_APPLICATION_DATA);
    aad.push(0x03);
    aad.push(0x03);
    aad.push((payload_len >> 8usize) as u8);
    aad.push((payload_len & 0xff) as u8);
    assert(aad@ =~= tls13_aad(payload_len));
    aad
}

/// The TLS 1.2 additional data of a record.
pub fn make_tls12_aad(seq: u64, typ: u8, version: u16, len: usize) -> (aad: Vec<u8>)
    ensures
        aad@ == tls12_aad(seq, typ, version, len),
{
    let mut aad = put_u64(seq);
    aad.push(typ);
    let v = put_u16(version);
    aad.extend_from_slice(v.as_slice());
    let l = put_u16(len as u16);
    aad.extend_from_slice(l.as_slice());
    assert(aad@ =~= tls12_aad(seq, typ, version, len));
    aad
}

/// `InboundOpaqueMessage::into_tls13_unpadded_message` of rustls, on the
/// record of type `typ` and version `version` whose decrypted payload is
/// `payload`. The contract claims what rustls's code does, as `tls13_unpad`
/// writes it: zero padding is removed from the end and the last non-zero
/// byte becomes the content type; a record longer than a fragment and its
/// type byte, a record of padding only, a protected `change_cipher_spec` and
/// a payload longer than a fragment are refused. rustls's errors are turned
/// into this crate's, one arm each; no other error comes out of that code.
#[verifier::external_body]
pub(crate) fn into_tls13_unpadded_message(typ: u8, version: u16, payload: Vec<u8>) -> (r: Result<
    PlainMessage,
    TlsError,
>)
    ensures
        plain_result_view(r) == tls13_unpad(payload@),
{
    let mut payload = payload;
    let m = InboundOpaqueMessage::new(ContentType::from(typ), ProtocolVersion::from(version), &mut payload);
    match m.into_tls13_unpadded_message() {
        Ok(p) => Ok(PlainMessage { typ: p.typ.into(), version: p.version.into(), payload: p.payload.to_vec() }),
        Err(RustlsError::PeerSentOversizedRecord) => Err(TlsError::PeerSentOversizedRecord),
        Err(RustlsError::PeerMisbehaved(RustlsPeerMisbehaved::IllegalTlsInnerPlaintext)) =>
            Err(TlsError::PeerMisbehaved(PeerMisbehaved::IllegalTlsInnerPlaintext)),
        Err(RustlsError::PeerMisbehaved(RustlsPeerMisbehaved::IllegalMiddleboxChangeCipherSpec)) =>
            Err(TlsError::PeerMisbehaved(PeerMisbehaved::IllegalMiddleboxChangeCipherSpec)),
        Err(e) => Err(TlsError::General(format!("{e}"))),
    }
}

/// Reading back the eight big-endian bytes of a `u64` gives the number.
proof fn lemma_u64_bytes_determine(x: u64, y: u64)
    by (bit_vector)
    requires
        ((x >> 56u64) & 0xff) as u8 == ((y >> 56u64) & 0xff) as u8,
        ((x >> 48u64) & 0xff) as u8 == ((y >> 48u64) & 0xff) as u8,
        ((x >> 40u64) & 0xff) as u8 == ((y >> 40u64) & 0xff) as u8,
        ((x >> 32u64) & 0xff) as u8 == ((y >> 32u64) & 0xff) as u8,
        ((x >> 24u64) & 0xff) as u8 == ((y >> 24u64) & 0xff) as u8,
        ((x >> 16u64) & 0xff) as u8 == ((y >> 16u64) & 0xff) as u8,
        ((x >> 8u64) & 0xff) as u8 == ((y >> 8u64) & 0xff) as u8,
        ((x >> 0u64) & 0xff) as u8 == ((y >> 0u64) & 0xff) as u8,
    ensures
        x == y,
{
}

/// Exclusive-or with a fixed byte is injective.
proof fn lemma_xor_cancel(a: u8, b: u8, c: u8)
    by (bit_vector)
    requires
        a ^ b == a ^ c,
    ensures
        b == c,
{
}

/// Distinct sequence numbers give distinct nonces under the same IV, so no
/// nonce is used twice on one connection.
pub proof fn lemma_nonce_unique(iv: Seq<u8>, s1: u64, s2: u64)
    requires
        iv.len() == NONCE_LEN,
        s1 != s2,
    ensures
        record_nonce(iv, s1) != record_nonce(iv, s2),
{
    if record_nonce(iv, s1) == record_nonce(iv, s2) {
        let b1 = u64_be_bytes(s1);
        let b2 = u64_be_bytes(s2);
        assert forall|j: int| 0 <= j < 8 implies b1[j] == b2[j] by {
            assert(record_nonce(iv, s1)[j + 4] == record_nonce(iv, s2)[j + 4]);
            lemma_xor_cancel(iv[j + 4], b1[j], b2[j]);
        }
        assert(b1[0] == b2[0]);
        assert(b1[1] == b2[1]);
        assert(b1[2] == b2[2]);
        assert(b1[3] == b2[3]);
        assert(b1[4] == b2[4]);
        assert(b1[5] == b2[5]);
        assert(b1[6] == b2[6]);
        assert(b1[7] == b2[7]);
        lemma_u64_bytes_determine(s1, s2);
    }
}

/// Padding a record and removing the padding again gives the record back,
/// as TLS 1.3, for every record whose type is neither 0 nor
/// `change_cipher_spec` and that fits in one fragment.
pub proof fn lemma_unpad_inner_plaintext(m: MessageView)
    requires
        m.typ != 0,
        m.typ != CONTENT_TYPE_CHANGE_CIPHER_SPEC,
        m.payload.len() <= MAX_FRAGMENT_LEN,
    ensures
        tls13_unpad(tls13_inner_plaintext(m)) == Ok::<MessageView, TlsError>(
            MessageView { typ: m.typ, version: TLS13_VERSION, payload: m.payload },
        ),
{
    let p = tls13_inner_plaintext(m);
    assert(p.last() == m.typ);
    assert(last_nonzero(p) == m.payload.len());
    assert(p.take(m.payload.len() as int) =~= m.payload);
}

/// Zero bytes after the last non-zero byte do not move it.
proof fn lemma_last_nonzero_padded(p: Seq<u8>, k: nat)
    requires
        p.len() > 0,
        p.last() != 0,
    ensures
        last_nonzero(p + zeros(k)) == p.len() - 1,
    decreases k,
{
    if k == 0 {
        assert(p + zeros(0) =~= p);
    } else {
        let q = p + zeros(k);
        assert(q.last() == 0);
        assert(q.drop_last() =~= p + zeros((k - 1) as nat));
        lemma_last_nonzero_padded(p, (k - 1) as nat);
    }
}

/// Removing the TLS 1.3 padding (RFC 8446, 5.4) from a record's payload
/// followed by its content type and any number of zero bytes gives the record
/// back, as TLS 1.3, wherever its type is neither 0 nor `change_cipher_spec`
/// and the whole fits in a fragment and its type byte.
pub proof fn lemma_unpad_padded(m: MessageView, k: nat)
    requires
        m.typ != 0,
        m.typ != CONTENT_TYPE_CHANGE_CIPHER_SPEC,
        m.payload.len() + 1 + k <= MAX_FRAGMENT_LEN + 1,
    ensures
        tls13_unpad(m.payload.push(m.typ) + zeros(k)) == Ok::<MessageView, TlsError>(
            MessageView { typ: m.typ, version: TLS13_VERSION, payload: m.payload },
        ),
{
    let inner = m.payload.push(m.typ);
    let p = inner + zeros(k);
    lemma_last_nonzero_padded(inner, k);
    assert(p[m.payload.len() as int] == m.typ);
    assert(p.take(m.payload.len() as int) =~= m.payload);
}

/// The TLS 1.3 additional data is the outer header of the protected record:
/// type `application_data`, version TLS 1.2, and the protected length
/// (RFC 8446, 5.2).
pub proof fn lemma_tls13_aad_is_record_header(len: usize)
    ensures
        tls13_aad(len) == record_header(CONTENT_TYPE_APPLICATION_DATA, TLS12_VERSION, len),
{
    assert(((len >> 8usize) as u8) == (((len as u16) >> 8u16) as u8)) by (bit_vector);
    assert(((len & 0xff) as u8) == (((len as u16) & 0xff) as u8)) by (bit_vector);
    assert((TLS12_VERSION >> 8u16) as u8 == 3u8) by (bit_vector);
    assert((TLS12_VERSION & 0xff) as u8 == 3u8) by (bit_vector);
    assert(tls13_aad(len) =~= record_header(CONTENT_TYPE_APPLICATION_DATA, TLS12_VERSION, len));
}

/// The TLS 1.2 additional data is the sequence number, big-endian, followed
/// by the header of the plaintext record (RFC 5246, 6.2.3.3; RFC 7905).
pub proof fn lemma_tls12_aad_is_seq_and_header(seq: u64, typ: u8, version: u16, len: usize)
    ensures
        tls12_aad(seq, typ, version, len) == u64_be_bytes(seq) + record_header(typ, version, len),
{
    assert(tls12_aad(seq, typ, version, len) =~= u64_be_bytes(seq) + record_header(
        typ,
        version,
        len,
    ));
}

} // verus!
