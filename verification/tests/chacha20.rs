use rustls_rustcrypto::aead::chacha20::{
    Chacha20Poly1305, ConnectionTrafficSecrets, KeyBlockShape,
};
use rustls_rustcrypto::error::{PeerMisbehaved, TlsError};
use rustls_rustcrypto::record::{OpaqueMessage, PlainMessage};

fn key() -> Vec<u8> {
    (0u8..32).collect()
}

fn iv() -> Vec<u8> {
    (100u8..112).collect()
}

fn plain(typ: u8, payload: &[u8]) -> PlainMessage {
    PlainMessage { typ, version: 0x0303, payload: payload.to_vec() }
}

#[test]
fn key_len_is_32() {
    assert_eq!(Chacha20Poly1305.key_len(), 32);
}

#[test]
fn key_block_shape_tls12() {
    assert_eq!(
        Chacha20Poly1305.key_block_shape(),
        KeyBlockShape { enc_key_len: 32, fixed_iv_len: 12, explicit_nonce_len: 0 }
    );
}

#[test]
fn extract_keys_hands_back_key_and_iv() {
    let ConnectionTrafficSecrets::Chacha20Poly1305 { key: k, iv: i } =
        Chacha20Poly1305.extract_keys(key(), iv()).unwrap();
    assert_eq!(k, key());
    assert_eq!(i, iv());
    let ConnectionTrafficSecrets::Chacha20Poly1305 { key: k, iv: i } =
        Chacha20Poly1305.tls12_extract_keys(key(), &iv(), &[]).unwrap();
    assert_eq!(k, key());
    assert_eq!(i, iv());
}

#[test]
fn tls13_encrypted_payload_len_adds_type_and_tag() {
    let c = Chacha20Poly1305.encrypter(key(), iv());
    assert_eq!(c.encrypted_payload_len(0), 17);
    assert_eq!(c.encrypted_payload_len(100), 117);
}

#[test]
fn tls12_encrypted_payload_len_adds_tag() {
    let c = Chacha20Poly1305.tls12_encrypter(key(), &iv(), &[]);
    assert_eq!(c.encrypted_payload_len(0), 16);
    assert_eq!(c.encrypted_payload_len(100), 116);
}

#[test]
fn tls13_encrypt_makes_application_data_record() {
    let mut c = Chacha20Poly1305.encrypter(key(), iv());
    let out = c.encrypt(plain(0x16, b"hello"), 0).unwrap();
    assert_eq!(out.typ, 0x17);
    assert_eq!(out.version, 0x0303);
    assert_eq!(out.payload.len(), 5 + 1 + 16);
    // the payload is not left in the clear
    assert_ne!(&out.payload[..5], b"hello");
}

#[test]
fn tls13_roundtrip() {
    let mut e = Chacha20Poly1305.encrypter(key(), iv());
    let mut d = Chacha20Poly1305.decrypter(key(), iv());
    for seq in [0u64, 1, 7, u64::MAX] {
        let msg = b"the quick brown fox".to_vec();
        let out = e.encrypt(plain(0x17, &msg), seq).unwrap();
        let back = d.decrypt(out, seq).unwrap();
        assert_eq!(back.typ, 0x17);
        assert_eq!(back.version, 0x0304);
        assert_eq!(back.payload, msg);
    }
}

#[test]
fn tls13_roundtrip_empty_and_zero_ending_payloads() {
    let mut e = Chacha20Poly1305.encrypter(key(), iv());
    let mut d = Chacha20Poly1305.decrypter(key(), iv());
    for msg in [vec![], vec![0u8, 0, 0], vec![1u8, 0]] {
        let out = e.encrypt(plain(0x15, &msg), 3).unwrap();
        let back = d.decrypt(out, 3).unwrap();
        assert_eq!(back.typ, 0x15);
        assert_eq!(back.payload, msg);
    }
}

#[test]
fn tls13_same_plaintext_different_sequence_different_ciphertext() {
    let mut e = Chacha20Poly1305.encrypter(key(), iv());
    let a = e.encrypt(plain(0x17, b"abc"), 1).unwrap();
    let b = e.encrypt(plain(0x17, b"abc"), 2).unwrap();
    assert_ne!(a.payload, b.payload);
}

#[test]
fn tls13_wrong_sequence_fails_to_decrypt() {
    let mut e = Chacha20Poly1305.encrypter(key(), iv());
    let mut d = Chacha20Poly1305.decrypter(key(), iv());
    let out = e.encrypt(plain(0x17, b"abc"), 1).unwrap();
    assert_eq!(d.decrypt(out, 2).err(), Some(TlsError::DecryptError));
}

#[test]
fn tls13_tampered_record_fails_to_decrypt() {
    let mut e = Chacha20Poly1305.encrypter(key(), iv());
    let mut d = Chacha20Poly1305.decrypter(key(), iv());
    let mut out = e.encrypt(plain(0x17, b"abc"), 9).unwrap();
    out.payload[0] ^= 1;
    assert_eq!(d.decrypt(out, 9).err(), Some(TlsError::DecryptError));
}

#[test]
fn tls13_wrong_key_fails_to_decrypt() {
    let mut e = Chacha20Poly1305.encrypter(key(), iv());
    let mut d = Chacha20Poly1305.decrypter(vec![1u8; 32], iv());
    let out = e.encrypt(plain(0x17, b"abc"), 0).unwrap();
    assert_eq!(d.decrypt(out, 0).err(), Some(TlsError::DecryptError));
}

#[test]
fn tls13_short_record_fails_to_decrypt() {
    let mut d = Chacha20Poly1305.decrypter(key(), iv());
    let m = OpaqueMessage { typ: 0x17, version: 0x0303, payload: vec![1, 2, 3] };
    assert_eq!(d.decrypt(m, 0).err(), Some(TlsError::DecryptError));
}

#[test]
fn tls13_protected_change_cipher_spec_is_refused() {
    let mut e = Chacha20Poly1305.encrypter(key(), iv());
    let mut d = Chacha20Poly1305.decrypter(key(), iv());
    let out = e.encrypt(plain(0x14, &[1]), 0).unwrap();
    assert_eq!(
        d.decrypt(out, 0).err(),
        Some(TlsError::PeerMisbehaved(
            PeerMisbehaved::IllegalMiddleboxChangeCipherSpec
        ))
    );
}

#[test]
fn tls13_zero_content_type_is_refused() {
    let mut e = Chacha20Poly1305.encrypter(key(), iv());
    let mut d = Chacha20Poly1305.decrypter(key(), iv());
    let out = e.encrypt(plain(0, &[0, 0]), 0).unwrap();
    assert_eq!(
        d.decrypt(out, 0).err(),
        Some(TlsError::PeerMisbehaved(PeerMisbehaved::IllegalTlsInnerPlaintext))
    );
}

#[test]
fn tls13_oversized_plaintext_is_refused_on_decrypt() {
    let mut e = Chacha20Poly1305.encrypter(key(), iv());
    let mut d = Chacha20Poly1305.decrypter(key(), iv());
    let out = e.encrypt(plain(0x17, &vec![7u8; 16385]), 0).unwrap();
    assert_eq!(d.decrypt(out, 0).err(), Some(TlsError::PeerSentOversizedRecord));
}

#[test]
fn tls12_roundtrip_keeps_type_and_version() {
    let mut e = Chacha20Poly1305.tls12_encrypter(key(), &iv(), &[]);
    let mut d = Chacha20Poly1305.tls12_decrypter(key(), &iv());
    let m = PlainMessage { typ: 0x16, version: 0x0303, payload: b"finished".to_vec() };
    let out = e.encrypt(m, 4).unwrap();
    assert_eq!(out.typ, 0x16);
    assert_eq!(out.version, 0x0303);
    assert_eq!(out.payload.len(), 8 + 16);
    assert_ne!(&out.payload[..8], b"finished");
    let back = d.decrypt(out, 4).unwrap();
    assert_eq!(back.typ, 0x16);
    assert_eq!(back.version, 0x0303);
    assert_eq!(back.payload, b"finished".to_vec());
}

#[test]
fn tls12_header_is_authenticated() {
    let mut e = Chacha20Poly1305.tls12_encrypter(key(), &iv(), &[]);
    let mut d = Chacha20Poly1305.tls12_decrypter(key(), &iv());
    let m = PlainMessage { typ: 0x17, version: 0x0303, payload: b"data".to_vec() };
    let mut out = e.encrypt(m, 0).unwrap();
    out.typ = 0x16;
    assert_eq!(d.decrypt(out, 0).err(), Some(TlsError::DecryptError));
}

#[test]
fn tls12_wrong_sequence_fails_to_decrypt() {
    let mut e = Chacha20Poly1305.tls12_encrypter(key(), &iv(), &[]);
    let mut d = Chacha20Poly1305.tls12_decrypter(key(), &iv());
    let m = PlainMessage { typ: 0x17, version: 0x0303, payload: b"data".to_vec() };
    let out = e.encrypt(m, 10).unwrap();
    assert_eq!(d.decrypt(out, 11).err(), Some(TlsError::DecryptError));
}

#[test]
fn tls12_record_shorter_than_tag_is_refused() {
    let mut d = Chacha20Poly1305.tls12_decrypter(vec![0u8; 32], &[0u8; 12]);
    let m = OpaqueMessage { typ: 0x17, version: 0x0303, payload: vec![0u8; 15] };
    assert_eq!(d.decrypt(m, 0).err(), Some(TlsError::DecryptError));
    let m = OpaqueMessage { typ: 0x17, version: 0x0303, payload: vec![] };
    assert_eq!(d.decrypt(m, 0).err(), Some(TlsError::DecryptError));
}

#[test]
fn tls12_encrypter_ignores_extra_argument() {
    let mut e1 = Chacha20Poly1305.tls12_encrypter(key(), &iv(), &[]);
    let mut e2 = Chacha20Poly1305.tls12_encrypter(key(), &iv(), &[1, 2, 3]);
    let a = e1.encrypt(plain(0x17, b"same"), 5).unwrap();
    let b = e2.encrypt(plain(0x17, b"same"), 5).unwrap();
    assert_eq!(a.payload, b.payload);
}

#[test]
fn tls13_encrypt_is_deterministic() {
    let mut e = Chacha20Poly1305.encrypter(key(), iv());
    let a = e.encrypt(plain(0x17, b"same"), 5).unwrap();
    let _ = e.encrypt(plain(0x17, b"other"), 6).unwrap();
    let b = e.encrypt(plain(0x17, b"same"), 5).unwrap();
    assert_eq!(a.payload, b.payload);
}

// A record of content type 0 whose payload ends in a non-zero byte and zeros
// has the inner plaintext of a padded record: opening it removes the padding.
#[test]
fn tls13_padding_is_removed_on_decrypt() {
    let mut e = Chacha20Poly1305.encrypter(key(), iv());
    let mut d = Chacha20Poly1305.decrypter(key(), iv());
    let out = e.encrypt(plain(0, &[b'h', b'i', 0x17, 0, 0]), 2).unwrap();
    let back = d.decrypt(out, 2).unwrap();
    assert_eq!(back.typ, 0x17);
    assert_eq!(back.version, 0x0304);
    assert_eq!(back.payload, b"hi".to_vec());
}

#[test]
fn tls13_padding_keeps_zeros_inside_the_payload() {
    let mut e = Chacha20Poly1305.encrypter(key(), iv());
    let mut d = Chacha20Poly1305.decrypter(key(), iv());
    let out = e.encrypt(plain(0, &[0, 0, 1, 0, 0x16, 0]), 2).unwrap();
    let back = d.decrypt(out, 2).unwrap();
    assert_eq!(back.typ, 0x16);
    assert_eq!(back.payload, vec![0, 0, 1, 0]);
}

#[test]
fn tls13_padding_counts_towards_the_limit() {
    let mut e = Chacha20Poly1305.encrypter(key(), iv());
    let mut d = Chacha20Poly1305.decrypter(key(), iv());
    let mut p = vec![1u8, 0x17];
    p.extend(vec![0u8; 16383]);
    // inner plaintext of 16386 bytes: over a fragment and its type byte
    let out = e.encrypt(plain(0, &p), 2).unwrap();
    assert_eq!(d.decrypt(out, 2).err(), Some(TlsError::PeerSentOversizedRecord));
    // a full fragment and its type byte is accepted
    let out = e.encrypt(plain(0x17, &vec![1u8; 16384]), 3).unwrap();
    assert_eq!(d.decrypt(out, 3).unwrap().payload.len(), 16384);
}

#[test]
fn tls13_record_shorter_than_tag_is_refused() {
    let mut d = Chacha20Poly1305.decrypter(vec![0u8; 32], vec![0u8; 12]);
    let m = OpaqueMessage { typ: 0x17, version: 0x0303, payload: vec![0u8; 10] };
    assert_eq!(d.decrypt(m, 0).err(), Some(TlsError::DecryptError));
}
