//! The key schedule: turning a KEM shared secret, an operating mode and an
//! info string into an encryption context, and the setup entry points for
//! sender and receiver.
//!
//! Sender and receiver run the identical schedule on the shared secret the
//! KEM gives each of them, so matching inputs yield contexts that agree on
//! the key, the base nonce and the exporter secret, with the sequence
//! counter at zero.
use vstd::prelude::*;

use crate::HpkeError;
use crate::aead::{Aead, AeadCtx, AeadCtxR, AeadCtxS, CtxView, spec_suite_id, suite_id};
use crate::byteops::{extend_bytes, zero_bytes, zero_vec};
use crate::kdf::{Kdf, labeled_expand, labeled_expand_of, labeled_extract, labeled_extract_of};
use crate::kem::{
    EncappedKey, decap, encap_with_ephemeral, spec_auth_decap_shared, spec_auth_encap_shared,
    spec_decap_shared, spec_encap_shared,
};
use crate::kex::{PrivateKey, PublicKey, X25519, x25519_base_of, x25519_of};
use crate::op_mode::{OpModeR, OpModeS};

verus! {

/// The label `"pskID_hash"`.
pub open spec fn label_psk_id_hash() -> Seq<u8> {
    seq![0x70u8, 0x73u8, 0x6bu8, 0x49u8, 0x44u8, 0x5fu8, 0x68u8, 0x61u8, 0x73u8, 0x68u8]
}

fn label_psk_id_hash_vec() -> (r: Vec<u8>)
    ensures
        r@ == label_psk_id_hash(),
{
    let mut v: Vec<u8> = Vec::new();
    v.push(0x70u8);
    v.push(0x73u8);
    v.push(0x6bu8);
    v.push(0x49u8);
    v.push(0x44u8);
    v.push(0x5fu8);
    v.push(0x68u8);
    v.push(0x61u8);
    v.push(0x73u8);
    v.push(0x68u8);
    proof {
        assert(v@ =~= label_psk_id_hash());
    }
    v
}

/// The label `"psk_hash"`.
pub open spec fn label_psk_hash() -> Seq<u8> {
    seq![0x70u8, 0x73u8, 0x6bu8, 0x5fu8, 0x68u8, 0x61u8, 0x73u8, 0x68u8]
}

fn label_psk_hash_vec() -> (r: Vec<u8>)
    ensures
        r@ == label_psk_hash(),
{
    let mut v: Vec<u8> = Vec::new();
    v.push(0x70u8);
    v.push(0x73u8);
    v.push(0x6bu8);
    v.push(0x5fu8);
    v.push(0x68u8);
    v.push(0x61u8);
    v.push(0x73u8);
    v.push(0x68u8);
    proof {
        assert(v@ =~= label_psk_hash());
    }
    v
}

/// The label `"info_hash"`.
pub open spec fn label_info_hash() -> Seq<u8> {
    seq![0x69u8, 0x6eu8, 0x66u8, 0x6fu8, 0x5fu8, 0x68u8, 0x61u8, 0x73u8, 0x68u8]
}

fn label_info_hash_vec() -> (r: Vec<u8>)
    ensures
        r@ == label_info_hash(),
{
    let mut v: Vec<u8> = Vec::new();
    v.push(0x69u8);
    v.push(0x6eu8);
    v.push(0x66u8);
    v.push(0x6fu8);
    v.push(0x5fu8);
    v.push(0x68u8);
    v.push(0x61u8);
    v.push(0x73u8);
    v.push(0x68u8);
    proof {
        assert(v@ =~= label_info_hash());
    }
    v
}

/// The label `"key"`.
pub open spec fn label_key() -> Seq<u8> {
    seq![0x6bu8, 0x65u8, 0x79u8]
}

fn label_key_vec() -> (r: Vec<u8>)
    ensures
        r@ == label_key(),
{
    let mut v: Vec<u8> = Vec::new();
    v.push(0x6bu8);
    v.push(0x65u8);
    v.push(0x79u8);
    proof {
        assert(v@ =~= label_key());
    }
    v
}

/// The label `"nonce"`.
pub open spec fn label_nonce() -> Seq<u8> {
    seq![0x6eu8, 0x6fu8, 0x6eu8, 0x63u8, 0x65u8]
}

fn label_nonce_vec() -> (r: Vec<u8>)
    ensures
        r@ == label_nonce(),
{
    let mut v: Vec<u8> = Vec::new();
    v.push(0x6eu8);
    v.push(0x6fu8);
    v.push(0x6eu8);
    v.push(0x63u8);
    v.push(0x65u8);
    proof {
        assert(v@ =~= label_nonce());
    }
    v
}

/// The label `"exp"`.
pub open spec fn label_exp() -> Seq<u8> {
    seq![0x65u8, 0x78u8, 0x70u8]
}

fn label_exp_vec() -> (r: Vec<u8>)
    ensures
        r@ == label_exp(),
{
    let mut v: Vec<u8> = Vec::new();
    v.push(0x65u8);
    v.push(0x78u8);
    v.push(0x70u8);
    proof {
        assert(v@ =~= label_exp());
    }
    v
}

/// The key schedule of the draft: hash the PSK identifier, the PSK and the
/// info string; extract the main secret from the shared secret over the
/// labeled PSK; and expand the key, the base nonce and the exporter secret
/// over the schedule context `mode_id || psk_id_hash || psk_hash ||
/// info_hash`. The fresh context has its counter at zero.
pub open spec fn spec_key_schedule<A: Aead, K: Kdf>(
    shared_secret: Seq<u8>,
    mode_id: u8,
    psk: Seq<u8>,
    psk_id: Seq<u8>,
    info: Seq<u8>,
) -> CtxView {
    let suite = spec_suite_id::<A, K>();
    let zeros = zero_bytes(K::spec_nh());
    let psk_id_hash = labeled_extract_of::<K>(suite, zeros, label_psk_id_hash(), psk_id);
    let psk_hash = labeled_extract_of::<K>(suite, zeros, label_psk_hash(), psk);
    let info_hash = labeled_extract_of::<K>(suite, zeros, label_info_hash(), info);
    let sched_context = seq![mode_id] + psk_id_hash + psk_hash + info_hash;
    let secret = labeled_extract_of::<K>(suite, shared_secret, label_psk_hash(), psk);
    CtxView {
        key: labeled_expand_of::<K>(suite, secret, label_key(), sched_context, A::spec_nk()),
        base_nonce: labeled_expand_of::<K>(suite, secret, label_nonce(), sched_context, A::spec_nn()),
        exporter_secret: labeled_expand_of::<K>(suite, secret, label_exp(), sched_context, K::spec_nh()),
        seq: zero_bytes(A::spec_nn()),
        overflowed: false,
    }
}

/// Runs the key schedule on a shared secret and the mode's inputs.
fn key_schedule<A: Aead, K: Kdf>(
    shared_secret: &[u8],
    mode_id: u8,
    psk: &[u8],
    psk_id: &[u8],
    info: &[u8],
) -> (r: AeadCtx<A, K>)
    ensures
        r.wf(),
        r@ == spec_key_schedule::<A, K>(shared_secret@, mode_id, psk@, psk_id@, info@),
{
    proof {
        A::lemma_props();
        K::lemma_props();
    }
    let suite = suite_id::<A, K>();
    let zeros = zero_vec(K::nh());
    let psk_id_hash = labeled_extract::<K>(
        suite.as_slice(),
        zeros.as_slice(),
        label_psk_id_hash_vec().as_slice(),
        psk_id,
    );
    let psk_hash = labeled_extract::<K>(
        suite.as_slice(),
        zeros.as_slice(),
        label_psk_hash_vec().as_slice(),
        psk,
    );
    let info_hash = labeled_extract::<K>(
        suite.as_slice(),
        zeros.as_slice(),
        label_info_hash_vec().as_slice(),
        info,
    );
    let mut sched_context: Vec<u8> = Vec::new();
    sched_context.push(mode_id);
    proof {
        assert(sched_context@ =~= seq![mode_id]);
    }
    extend_bytes(&mut sched_context, psk_id_hash.as_slice());
    extend_bytes(&mut sched_context, psk_hash.as_slice());
    extend_bytes(&mut sched_context, info_hash.as_slice());
    let secret = labeled_extract::<K>(
        suite.as_slice(),
        shared_secret,
        label_psk_hash_vec().as_slice(),
        psk,
    );
    let key = match labeled_expand::<K>(
        suite.as_slice(),
        secret.as_slice(),
        label_key_vec().as_slice(),
        sched_context.as_slice(),
        A::nk(),
    ) {
        Ok(v) => v,
        Err(_) => {
            // A key of at most 32 bytes never exceeds 255 hash blocks.
            proof {
                assert(false);
            }
            Vec::new()
        },
    };
    let base_nonce = match labeled_expand::<K>(
        suite.as_slice(),
        secret.as_slice(),
        label_nonce_vec().as_slice(),
        sched_context.as_slice(),
        A::nn(),
    ) {
        Ok(v) => v,
        Err(_) => {
            // A 12-byte nonce never exceeds 255 hash blocks.
            proof {
                assert(false);
            }
            Vec::new()
        },
    };
    let exporter_secret = match labeled_expand::<K>(
        suite.as_slice(),
        secret.as_slice(),
        label_exp_vec().as_slice(),
        sched_context.as_slice(),
        K::nh(),
    ) {
        Ok(v) => v,
        Err(_) => {
            // One hash block never exceeds 255 hash blocks.
            proof {
                assert(false);
            }
            Vec::new()
        },
    };
    AeadCtx::<A, K>::new(key, base_nonce, exporter_secret)
}

/// The shared secret a receiver holding `skr` derives for a sender mode's
/// encapsulated key: the authenticated variant when the mode carries a
/// sender identity, the plain one otherwise.
pub open spec fn spec_sender_mode_receiver_shared<A: Aead, K: Kdf>(
    mode: &OpModeS,
    skr: Seq<u8>,
    enc: Seq<u8>,
) -> Seq<u8> {
    match mode.spec_sender_id() {
        None => spec_decap_shared::<A, K>(skr, enc),
        Some(kp) => spec_auth_decap_shared::<A, K>(skr, enc, kp.1),
    }
}

/// The shared secret the sender derives with the ephemeral key `sk_e`: the
/// authenticated variant when the mode carries a sender identity, the plain
/// one otherwise.
pub open spec fn spec_sender_mode_encap_shared<A: Aead, K: Kdf>(
    mode: &OpModeS,
    sk_e: Seq<u8>,
    pk_r: Seq<u8>,
) -> Seq<u8> {
    match mode.spec_sender_id() {
        None => spec_encap_shared::<A, K>(sk_e, pk_r),
        Some(kp) => spec_auth_encap_shared::<A, K>(sk_e, pk_r, kp.0, kp.1),
    }
}

/// Initiates the sender's end: encapsulates to the recipient's public key
/// with a fresh ephemeral key and runs the key schedule. Fails with
/// `InvalidPsk` exactly when the mode's PSK pairing is broken, and otherwise
/// only with `InvalidKeyExchange`, when an exchange with the fresh key was
/// all-zero and no context can exist. On success, the context agrees with
/// the schedule any matching receiver runs on the returned encapsulated key.
pub fn setup_sender<A: Aead, K: Kdf>(mode: &OpModeS, pk_recip: &PublicKey, info: &[u8]) -> (r:
    Result<(EncappedKey, AeadCtxS<A, K>), HpkeError>)
    requires
        mode.wf(),
        pk_recip.wf(),
    ensures
        r == Err::<(EncappedKey, AeadCtxS<A, K>), HpkeError>(HpkeError::InvalidPsk)
            <==> !mode.pairing_ok(),
        r matches Err(e) ==> e == HpkeError::InvalidPsk || e == HpkeError::InvalidKeyExchange,
        r matches Ok(p) ==> p.0.wf() && p.1.wf() && !p.1@.overflowed && p.1@.seq == zero_bytes(
            A::spec_nn(),
        ),
        r matches Ok(p) ==> exists|sk_e: Seq<u8>|
            sk_e.len() == 32 && p.0@ == x25519_base_of(sk_e) && p.1@ == spec_key_schedule::<A, K>(
                spec_sender_mode_encap_shared::<A, K>(mode, sk_e, pk_recip@),
                mode.spec_mode_id(),
                mode.spec_psk(),
                mode.spec_psk_id(),
                info@,
            ),
        mode.auth_keys_match() ==> (r matches Ok(p) ==> forall|skr: Seq<u8>|
            skr.len() == 32 && pk_recip@ == x25519_base_of(skr) ==> p.1@
                == spec_key_schedule::<A, K>(
                spec_sender_mode_receiver_shared::<A, K>(mode, skr, p.0@),
                mode.spec_mode_id(),
                mode.spec_psk(),
                mode.spec_psk_id(),
                info@,
            )),
{
    if !mode.validate() {
        return Err(HpkeError::InvalidPsk);
    }
    let (sk_e, _pk_e) = X25519::gen_keypair();
    let (shared_secret, encapped_key) = match encap_with_ephemeral::<A, K>(
        &sk_e,
        pk_recip,
        mode.sender_id(),
    ) {
        Ok(p) => p,
        Err(e) => {
            return Err(e);
        },
    };
    let psk = mode.psk_bytes();
    let psk_id = mode.psk_id_bytes();
    let ctx = key_schedule::<A, K>(
        shared_secret.as_slice(),
        mode.mode_id(),
        psk.as_slice(),
        psk_id.as_slice(),
        info,
    );
    proof {
        // The generated ephemeral key witnesses the encapsulation.
        assert(encapped_key@ == x25519_base_of(sk_e@));
        assert(shared_secret@ == spec_sender_mode_encap_shared::<A, K>(mode, sk_e@, pk_recip@));
        assert(ctx@ == spec_key_schedule::<A, K>(
            spec_sender_mode_encap_shared::<A, K>(mode, sk_e@, pk_recip@),
            mode.spec_mode_id(),
            mode.spec_psk(),
            mode.spec_psk_id(),
            info@,
        ));
    }
    Ok((encapped_key, AeadCtxS::wrap(ctx)))
}

/// The shared secret the receiver derives for its mode: the authenticated
/// variant when the mode names a sender identity key, the plain one
/// otherwise.
pub open spec fn spec_receiver_shared<A: Aead, K: Kdf>(
    mode: &OpModeR,
    skr: Seq<u8>,
    enc: Seq<u8>,
) -> Seq<u8> {
    match mode.spec_pk_sender() {
        None => spec_decap_shared::<A, K>(skr, enc),
        Some(pks) => spec_auth_decap_shared::<A, K>(skr, enc, pks),
    }
}

/// Whether the receiver's decapsulation hits an all-zero exchange and must
/// abort.
pub open spec fn spec_receiver_kex_fails(mode: &OpModeR, skr: Seq<u8>, enc: Seq<u8>) -> bool {
    x25519_of(skr, enc) == zero_bytes(32) || (match mode.spec_pk_sender() {
        Some(pks) => x25519_of(skr, pks) == zero_bytes(32),
        None => false,
    })
}

/// Initiates the receiver's end: decapsulates the received key with the
/// recipient's private key and runs the identical key schedule. Fails with
/// `InvalidPsk` exactly when the mode's PSK pairing is broken, and with
/// `InvalidKeyExchange` exactly when an exchange is all-zero; in either case
/// no context is produced.
pub fn setup_receiver<A: Aead, K: Kdf>(
    mode: &OpModeR,
    sk_recip: &PrivateKey,
    encapped_key: &EncappedKey,
    info: &[u8],
) -> (r: Result<AeadCtxR<A, K>, HpkeError>)
    requires
        mode.wf(),
        sk_recip.wf(),
        encapped_key.wf(),
    ensures
        r == Err::<AeadCtxR<A, K>, HpkeError>(HpkeError::InvalidPsk) <==> !mode.pairing_ok(),
        mode.pairing_ok() ==> (r == Err::<AeadCtxR<A, K>, HpkeError>(HpkeError::InvalidKeyExchange)
            <==> spec_receiver_kex_fails(mode, sk_recip@, encapped_key@)),
        r matches Err(e) ==> e == HpkeError::InvalidPsk || e == HpkeError::InvalidKeyExchange,
        r matches Ok(ctx) ==> ctx.wf() && !ctx@.overflowed && ctx@.seq == zero_bytes(A::spec_nn())
            && ctx@ == spec_key_schedule::<A, K>(
            spec_receiver_shared::<A, K>(mode, sk_recip@, encapped_key@),
            mode.spec_mode_id(),
            mode.spec_psk(),
            mode.spec_psk_id(),
            info@,
        ),
{
    if !mode.validate() {
        return Err(HpkeError::InvalidPsk);
    }
    let shared_secret = match decap::<A, K>(sk_recip, encapped_key, mode.pk_sender()) {
        Ok(ss) => ss,
        Err(e) => {
            return Err(e);
        },
    };
    let psk = mode.psk_bytes();
    let psk_id = mode.psk_id_bytes();
    let ctx = key_schedule::<A, K>(
        shared_secret.as_slice(),
        mode.mode_id(),
        psk.as_slice(),
        psk_id.as_slice(),
        info,
    );
    Ok(AeadCtxR::wrap(ctx))
}

} // verus!
