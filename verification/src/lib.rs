//! Hybrid Public Key Encryption (HPKE, draft-irtf-cfrg-hpke-02).
//!
//! The core combines a Diffie-Hellman key encapsulation mechanism with an
//! authenticated symmetric cipher, mediated by a labeled key derivation
//! function. A sender derives an encryption context and an encapsulated key;
//! a receiver holding the matching private key derives the identical context
//! and opens the sender's ciphertexts in sequence.
use vstd::prelude::*;

pub mod aead;
pub mod byteops;
pub mod kdf;
pub mod kem;
pub mod kex;
pub mod op_mode;
pub mod setup;
pub mod single_shot;

verus! {

/// Errors produced by the HPKE core, each distinguishable by the caller.
#[derive(Clone, Copy, Debug, PartialEq, Eq, Structural)]
pub enum HpkeError {
    /// A serialized key or tag had the wrong byte length.
    InvalidEncoding,
    /// A Diffie-Hellman exchange produced the all-zero shared secret.
    InvalidKeyExchange,
    /// The pre-shared key and its identifier were not supplied together.
    InvalidPsk,
    /// A requested KDF output exceeded 255 hash blocks.
    InvalidKdfLength,
    /// An AEAD open failed its authentication check.
    InvalidTag,
    /// An unspecified AEAD seal failure.
    Encryption,
    /// The context's sequence counter is exhausted.
    SeqOverflow,
}

} // verus!
