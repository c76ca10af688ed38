use rustls_rustcrypto::error::{PeerMisbehaved, TlsError};
use rustls_rustcrypto::kx::{
    all_kx_groups, NamedGroup, SecP256R1, SecP256R1KeyExchange, SecP384R1, SecP384R1KeyExchange,
    X25519, X25519KeyExchange,
};

fn invalid_share() -> Option<TlsError> {
    Some(TlsError::PeerMisbehaved(PeerMisbehaved::InvalidKeyShare))
}

#[test]
fn group_names() {
    assert_eq!(X25519.name(), NamedGroup::X25519);
    assert_eq!(SecP256R1.name(), NamedGroup::secp256r1);
    assert_eq!(SecP384R1.name(), NamedGroup::secp384r1);
    assert_eq!(
        all_kx_groups(),
        vec![NamedGroup::X25519, NamedGroup::secp256r1, NamedGroup::secp384r1]
    );
}

#[test]
fn x25519_key_exchange_agrees() {
    let a = X25519.start().unwrap();
    let b = X25519.start().unwrap();
    assert_eq!(a.group(), NamedGroup::X25519);
    let a_pub = a.pub_key().to_vec();
    let b_pub = b.pub_key().to_vec();
    assert_eq!(a_pub.len(), 32);
    assert_ne!(a_pub, b_pub);
    let sa = a.complete(&b_pub).unwrap();
    let sb = b.complete(&a_pub).unwrap();
    assert_eq!(sa.len(), 32);
    assert_eq!(sa, sb);
}

#[test]
fn x25519_rejects_wrong_length_share() {
    let a = X25519.start().unwrap();
    assert_eq!(a.complete(&[9u8; 31]).err(), invalid_share());
    let a = X25519.start().unwrap();
    assert_eq!(a.complete(&[9u8; 33]).err(), invalid_share());
    let a = X25519.start().unwrap();
    assert_eq!(a.complete(&[]).err(), invalid_share());
}

#[test]
fn p256_key_exchange_agrees() {
    let a = SecP256R1.start().unwrap();
    let b = SecP256R1.start().unwrap();
    assert_eq!(a.group(), NamedGroup::secp256r1);
    let a_pub = a.pub_key().to_vec();
    let b_pub = b.pub_key().to_vec();
    assert_eq!(a_pub.len(), 65);
    assert_eq!(a_pub[0], 4);
    let sa = a.complete(&b_pub).unwrap();
    let sb = b.complete(&a_pub).unwrap();
    assert_eq!(sa.len(), 32);
    assert_eq!(sa, sb);
}

#[test]
fn p256_rejects_invalid_share() {
    let a = SecP256R1.start().unwrap();
    assert_eq!(a.complete(&[4u8; 65]).err(), invalid_share());
    let a = SecP256R1.start().unwrap();
    assert_eq!(a.complete(&[0u8]).err(), invalid_share());
    let a = SecP256R1.start().unwrap();
    assert_eq!(a.complete(&[9u8; 32]).err(), invalid_share());
}

#[test]
fn p384_key_exchange_agrees() {
    let a = SecP384R1.start().unwrap();
    let b = SecP384R1.start().unwrap();
    assert_eq!(a.group(), NamedGroup::secp384r1);
    let a_pub = a.pub_key().to_vec();
    let b_pub = b.pub_key().to_vec();
    assert_eq!(a_pub.len(), 97);
    assert_eq!(a_pub[0], 4);
    let sa = a.complete(&b_pub).unwrap();
    let sb = b.complete(&a_pub).unwrap();
    assert_eq!(sa.len(), 48);
    assert_eq!(sa, sb);
}

#[test]
fn p384_rejects_invalid_share() {
    let a = SecP384R1.start().unwrap();
    assert_eq!(a.complete(&[4u8; 97]).err(), invalid_share());
    let a = SecP384R1.start().unwrap();
    // a P-256 sized point is the wrong shape for P-384
    assert_eq!(a.complete(&[4u8; 65]).err(), invalid_share());
}

#[test]
fn p256_share_of_wrong_curve_is_refused() {
    let b = SecP384R1.start().unwrap();
    let b_pub = b.pub_key().to_vec();
    let a = SecP256R1.start().unwrap();
    assert_eq!(a.complete(&b_pub).err(), invalid_share());
}

#[test]
fn x25519_rfc7748_vectors() {
    // RFC 7748 section 6.1
    let a_priv = hex("77076d0a7318a57d3c16c17251b26645df4c2f87ebc0992ab177fba51db92c2a");
    let a_pub = hex("8520f0098930a754748b7ddcb43ef75a0dbf3a0d26381af4eba4a98eaa9b4e6a");
    let b_priv = hex("5dab087e624a8a4b79e17f8b83800ee66f3bb1292618b6fd1c2f8b27ff88e0eb");
    let b_pub = hex("de9edb7d7b7dc1b4d35b61c2ece435373f8343c85b78674dadfc7e146f882b4f");
    let shared = hex("4a5d9d5ba4ce2de1728e3bf480350f25e07e21c947d19e3376f09b3c1e161742");
    let a = X25519KeyExchange::from_private_key(a_priv);
    let b = X25519KeyExchange::from_private_key(b_priv);
    assert_eq!(a.pub_key(), &a_pub[..]);
    assert_eq!(b.pub_key(), &b_pub[..]);
    assert_eq!(a.complete(&b_pub).unwrap(), shared);
    assert_eq!(b.complete(&a_pub).unwrap(), shared);
}

#[test]
fn p256_from_draw_refuses_zero_and_order() {
    assert!(SecP256R1KeyExchange::from_draw(vec![0u8; 32]).is_none());
    let order = hex("ffffffff00000000ffffffffffffffffbce6faada7179e84f3b9cac2fc632551");
    assert!(SecP256R1KeyExchange::from_draw(order.clone()).is_none());
    let mut below = order;
    below[31] -= 1;
    let kx = SecP256R1KeyExchange::from_draw(below).unwrap();
    assert_eq!(kx.pub_key().len(), 65);
    let mut one = vec![0u8; 32];
    one[31] = 1;
    // the public key of the scalar 1 is the generator
    let g = SecP256R1KeyExchange::from_draw(one).unwrap();
    assert_eq!(
        g.pub_key()[1..33].to_vec(),
        hex("6b17d1f2e12c4247f8bce6e563a440f277037d812deb33a0f4a13945d898c296")
    );
}

#[test]
fn p384_from_draw_refuses_zero_and_agrees() {
    assert!(SecP384R1KeyExchange::from_draw(vec![0u8; 48]).is_none());
    let mut two = vec![0u8; 48];
    two[47] = 2;
    let mut three = vec![0u8; 48];
    three[47] = 3;
    let a = SecP384R1KeyExchange::from_draw(two).unwrap();
    let b = SecP384R1KeyExchange::from_draw(three).unwrap();
    let pa = a.pub_key().to_vec();
    let pb = b.pub_key().to_vec();
    assert_eq!(a.complete(&pb).unwrap(), b.complete(&pa).unwrap());
}

fn hex(s: &str) -> Vec<u8> {
    (0..s.len())
        .step_by(2)
        .map(|i| u8::from_str_radix(&s[i..i + 2], 16).unwrap())
        .collect()
}
