//! Single-shot encryption and decryption: a setup and one seal (or open) in
//! one call, for callers that send exactly one message per encapsulation.
use vstd::prelude::*;

use crate::HpkeError;
use crate::aead::{Aead, AeadTag};
use crate::byteops::xor_bytes;
use crate::kdf::Kdf;
use crate::kem::EncappedKey;
use crate::kex::{PrivateKey, PublicKey, x25519_base_of};
use crate::op_mode::{OpModeR, OpModeS};
use crate::setup::{
    setup_receiver, setup_sender, spec_key_schedule, spec_receiver_kex_fails, spec_receiver_shared,
    spec_sender_mode_receiver_shared,
};

verus! {

/// Does a `setup_sender` and one `seal` in one shot: encapsulates to the
/// recipient's public key and encrypts `plaintext` in place, returning the
/// encapsulated key and the tag. Fails with `InvalidPsk` exactly when the
/// mode's PSK pairing is broken; otherwise only with `InvalidKeyExchange`
/// (an all-zero exchange with the fresh ephemeral key) or `Encryption` (an
/// oversized input). On failure the buffer is unchanged. On success, the
/// ciphertext and tag are the sealing, under the schedule any matching
/// receiver derives, of the original plaintext, and open that schedule's
/// first nonce yields it back.
pub fn single_shot_seal<A: Aead, K: Kdf>(
    mode: &OpModeS,
    pk_recip: &PublicKey,
    info: &[u8],
    plaintext: &mut Vec<u8>,
    aad: &[u8],
) -> (r: Result<(EncappedKey, AeadTag<A>), HpkeError>)
    requires
        mode.wf(),
        pk_recip.wf(),
    ensures
        final(plaintext)@.len() == old(plaintext)@.len(),
        r == Err::<(EncappedKey, AeadTag<A>), HpkeError>(HpkeError::InvalidPsk)
            <==> !mode.pairing_ok(),
        r matches Err(e) ==> (e == HpkeError::InvalidPsk || e == HpkeError::InvalidKeyExchange || e
            == HpkeError::Encryption) && final(plaintext)@ == old(plaintext)@,
        r matches Ok(p) ==> p.0.wf() && p.1.wf(),
        mode.auth_keys_match() ==> (r matches Ok(p) ==> forall|skr: Seq<u8>|
            skr.len() == 32 && pk_recip@ == x25519_base_of(skr) ==> ({
                let ctxv = spec_key_schedule::<A, K>(
                    spec_sender_mode_receiver_shared::<A, K>(mode, skr, p.0@),
                    mode.spec_mode_id(),
                    mode.spec_psk(),
                    mode.spec_psk_id(),
                    info@,
                );
                let nonce0 = xor_bytes(ctxv.base_nonce, ctxv.seq);
                &&& final(plaintext)@ == A::spec_seal(ctxv.key, nonce0, aad@, old(plaintext)@).0
                &&& p.1@ == A::spec_seal(ctxv.key, nonce0, aad@, old(plaintext)@).1
                &&& A::spec_open(ctxv.key, nonce0, aad@, final(plaintext)@, p.1@) == Some(
                    old(plaintext)@,
                )
            })),
{
    let (encapped_key, mut ctx) = match setup_sender::<A, K>(mode, pk_recip, info) {
        Ok(p) => p,
        Err(e) => {
            return Err(e);
        },
    };
    let tag = match ctx.seal(plaintext, aad) {
        Ok(t) => t,
        Err(e) => {
            return Err(e);
        },
    };
    Ok((encapped_key, tag))
}

/// Does a `setup_receiver` and one `open` in one shot: decapsulates the
/// received key and decrypts `ciphertext` in place. Fails with `InvalidPsk`
/// exactly when the mode's PSK pairing is broken, with `InvalidKeyExchange`
/// exactly when an exchange is all-zero, and otherwise with `InvalidTag`
/// exactly when the tag does not authenticate the ciphertext under the
/// derived schedule's first nonce; on every failure the buffer is unchanged.
pub fn single_shot_open<A: Aead, K: Kdf>(
    mode: &OpModeR,
    sk_recip: &PrivateKey,
    encapped_key: &EncappedKey,
    info: &[u8],
    ciphertext: &mut Vec<u8>,
    aad: &[u8],
    tag: &AeadTag<A>,
) -> (r: Result<(), HpkeError>)
    requires
        mode.wf(),
        sk_recip.wf(),
        encapped_key.wf(),
        tag.wf(),
    ensures
        final(ciphertext)@.len() == old(ciphertext)@.len(),
        r == Err::<(), HpkeError>(HpkeError::InvalidPsk) <==> !mode.pairing_ok(),
        mode.pairing_ok() ==> (r == Err::<(), HpkeError>(HpkeError::InvalidKeyExchange)
            <==> spec_receiver_kex_fails(mode, sk_recip@, encapped_key@)),
        r matches Err(e) ==> (e == HpkeError::InvalidPsk || e == HpkeError::InvalidKeyExchange || e
            == HpkeError::InvalidTag) && final(ciphertext)@ == old(ciphertext)@,
        (mode.pairing_ok() && !spec_receiver_kex_fails(mode, sk_recip@, encapped_key@)) ==> ({
            let ctxv = spec_key_schedule::<A, K>(
                spec_receiver_shared::<A, K>(mode, sk_recip@, encapped_key@),
                mode.spec_mode_id(),
                mode.spec_psk(),
                mode.spec_psk_id(),
                info@,
            );
            let nonce0 = xor_bytes(ctxv.base_nonce, ctxv.seq);
            let res = A::spec_open(ctxv.key, nonce0, aad@, old(ciphertext)@, tag@);
            &&& (r.is_ok() <==> res is Some)
            &&& (r.is_ok() ==> Some(final(ciphertext)@) == res)
        }),
{
    let mut ctx = match setup_receiver::<A, K>(mode, sk_recip, encapped_key, info) {
        Ok(c) => c,
        Err(e) => {
            return Err(e);
        },
    };
    ctx.open(ciphertext, aad, tag)
}

} // verus!
