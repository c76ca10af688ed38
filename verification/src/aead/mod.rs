//! AEAD record protection.

pub mod chacha20;
pub mod primitive;
