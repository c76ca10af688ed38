# rustls_rustcrypto

A cryptography provider for rustls built on the RustCrypto crates, written in
Verus. The library (`src/`) holds the record protection of ChaCha20-Poly1305
for TLS 1.3 and TLS 1.2, the X25519, P-256 and P-384 key exchanges and the
provider's random source, each with a contract; `app/` implements rustls's
traits over it.

- `src/record.rs`: record values, per-record nonces, additional data, the
  TLS 1.3 padding (removed by rustls behind a contract), and the lemmas on
  them.
- `src/aead/chacha20.rs`: the ChaCha20-Poly1305 record protection.
- `src/aead/primitive.rs`, `src/kx_primitive.rs`: the calls into
  `chacha20poly1305`, `x25519-dalek`, `p256` and `p384`, with the contracts
  that the proofs rest on.
- `src/kx.rs`: the key-exchange groups.
- `src/lib.rs`: the provider's random source and the services it declines.
