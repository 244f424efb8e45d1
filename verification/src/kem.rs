//! The key encapsulation mechanism: DHKEM over X25519 with labeled HKDF.
//!
//! Encapsulation performs one Diffie-Hellman exchange with an ephemeral key
//! (two, in the authenticated variants), extracts a pseudorandom key from the
//! raw exchange under the label `"dh"`, and expands it over the public
//! context under the label `"prk"` into the shared secret. The encapsulated
//! key on the wire is exactly the serialized ephemeral public key.
use vstd::prelude::*;

use crate::HpkeError;
use crate::aead::{Aead, spec_suite_id, suite_id};
use crate::byteops::{extend_bytes, zero_bytes, zero_vec};
use crate::kdf::{Kdf, labeled_expand, labeled_expand_of, labeled_extract, labeled_extract_of};
use crate::kex::{PrivateKey, PublicKey, X25519, x25519_base_of, x25519_of};

verus! {

/// The encapsulated key a sender transmits: for this DHKEM, a serialized
/// ephemeral X25519 public key.
pub struct EncappedKey(pub(crate) PublicKey);

impl View for EncappedKey {
    type V = Seq<u8>;

    closed spec fn view(&self) -> Seq<u8> {
        self.0@
    }
}

impl EncappedKey {
    /// A well-formed encapsulated key holds exactly 32 bytes.
    pub open spec fn wf(&self) -> bool {
        self@.len() == 32
    }

    /// The fixed length of the wire encoding.
    pub fn size() -> (r: usize)
        ensures
            r == 32,
    {
        32
    }

    /// Serializes the encapsulated key: a pure copy of its 32 bytes.
    pub fn marshal(&self) -> (r: Vec<u8>)
        ensures
            r@ == self@,
    {
        self.0.marshal()
    }

    /// Deserializes an encapsulated key from exactly 32 bytes; any other
    /// length is rejected with `InvalidEncoding`.
    pub fn unmarshal(encoded: &[u8]) -> (r: Result<EncappedKey, HpkeError>)
        ensures
            encoded@.len() == 32 ==> (r matches Ok(k) && k@ == encoded@ && k.wf()),
            encoded@.len() != 32 ==> r == Err::<EncappedKey, HpkeError>(HpkeError::InvalidEncoding),
    {
        match PublicKey::unmarshal(encoded) {
            Ok(pk) => Ok(EncappedKey(pk)),
            Err(e) => Err(e),
        }
    }
}

/// The label `"dh"` under which the raw exchange is extracted.
pub open spec fn label_dh() -> Seq<u8> {
    seq![0x64u8, 0x68u8]
}

fn label_dh_vec() -> (r: Vec<u8>)
    ensures
        r@ == label_dh(),
{
    let mut v: Vec<u8> = Vec::new();
    v.push(0x64u8);
    v.push(0x68u8);
    proof {
        assert(v@ =~= label_dh());
    }
    v
}

/// The label `"prk"` under which the shared secret is expanded.
pub open spec fn label_prk() -> Seq<u8> {
    seq![0x70u8, 0x72u8, 0x6bu8]
}

fn label_prk_vec() -> (r: Vec<u8>)
    ensures
        r@ == label_prk(),
{
    let mut v: Vec<u8> = Vec::new();
    v.push(0x70u8);
    v.push(0x72u8);
    v.push(0x6bu8);
    proof {
        assert(v@ =~= label_prk());
    }
    v
}

/// The DHKEM derivation: extract the raw exchange under `"dh"` with an
/// all-zero salt, then expand over the public context under `"prk"` to the
/// 32-byte shared secret.
pub open spec fn spec_kem_ss<A: Aead, K: Kdf>(dh: Seq<u8>, kem_context: Seq<u8>) -> Seq<u8> {
    labeled_expand_of::<K>(
        spec_suite_id::<A, K>(),
        labeled_extract_of::<K>(spec_suite_id::<A, K>(), zero_bytes(K::spec_nh()), label_dh(), dh),
        label_prk(),
        kem_context,
        32,
    )
}

/// The shared secret the receiver derives in the unauthenticated modes.
pub open spec fn spec_decap_shared<A: Aead, K: Kdf>(skr: Seq<u8>, enc: Seq<u8>) -> Seq<u8> {
    spec_kem_ss::<A, K>(x25519_of(skr, enc), enc + x25519_base_of(skr))
}

/// The shared secret the receiver derives in the authenticated modes.
pub open spec fn spec_auth_decap_shared<A: Aead, K: Kdf>(
    skr: Seq<u8>,
    enc: Seq<u8>,
    pk_sender: Seq<u8>,
) -> Seq<u8> {
    spec_kem_ss::<A, K>(
        x25519_of(skr, enc) + x25519_of(skr, pk_sender),
        enc + x25519_base_of(skr) + pk_sender,
    )
}

/// The shared secret the sender derives in the unauthenticated modes.
pub open spec fn spec_encap_shared<A: Aead, K: Kdf>(sk_e: Seq<u8>, pk_r: Seq<u8>) -> Seq<u8> {
    spec_kem_ss::<A, K>(x25519_of(sk_e, pk_r), x25519_base_of(sk_e) + pk_r)
}

/// The shared secret the sender derives in the authenticated modes.
pub open spec fn spec_auth_encap_shared<A: Aead, K: Kdf>(
    sk_e: Seq<u8>,
    pk_r: Seq<u8>,
    sk_s: Seq<u8>,
    pk_s: Seq<u8>,
) -> Seq<u8> {
    spec_kem_ss::<A, K>(
        x25519_of(sk_e, pk_r) + x25519_of(sk_s, pk_r),
        x25519_base_of(sk_e) + pk_r + pk_s,
    )
}

/// Derives the KEM shared secret from the raw exchange bytes and the public
/// context.
fn kem_ss<A: Aead, K: Kdf>(dh: &[u8], kem_context: &[u8]) -> (r: Vec<u8>)
    ensures
        r@ == spec_kem_ss::<A, K>(dh@, kem_context@),
        r@.len() == 32,
{
    proof {
        K::lemma_props();
    }
    let suite = suite_id::<A, K>();
    let zeros = zero_vec(K::nh());
    let lbl_dh = label_dh_vec();
    let lbl_prk = label_prk_vec();
    let prk = labeled_extract::<K>(suite.as_slice(), zeros.as_slice(), lbl_dh.as_slice(), dh);
    match labeled_expand::<K>(suite.as_slice(), prk.as_slice(), lbl_prk.as_slice(), kem_context, 32) {
        Ok(ss) => ss,
        Err(_) => {
            // A 32-byte output never exceeds 255 hash blocks.
            proof {
                assert(false);
            }
            Vec::new()
        },
    }
}

/// Encapsulation with an explicit ephemeral key: derives the shared secret
/// and the wire value deterministically from the ephemeral private key, the
/// recipient's public key and, in the authenticated modes, the sender's
/// identity keypair. Fails with `InvalidKeyExchange` exactly when a raw
/// exchange is all-zero, and then produces no secret. On success, any
/// recipient private key matching the given public key decapsulates to the
/// same shared secret.
pub fn encap_with_ephemeral<A: Aead, K: Kdf>(
    sk_e: &PrivateKey,
    pk_recip: &PublicKey,
    sender_id: Option<&(PrivateKey, PublicKey)>,
) -> (r: Result<(Vec<u8>, EncappedKey), HpkeError>)
    requires
        sk_e.wf(),
        pk_recip.wf(),
        sender_id matches Some(kp) ==> kp.0.wf() && kp.1.wf(),
    ensures
        r matches Err(e) ==> e == HpkeError::InvalidKeyExchange,
        sender_id is None ==> ((r is Err) <==> x25519_of(sk_e@, pk_recip@) == zero_bytes(32)),
        sender_id matches Some(kp) ==> ((r is Err) <==> (x25519_of(sk_e@, pk_recip@) == zero_bytes(
            32,
        ) || x25519_of(kp.0@, pk_recip@) == zero_bytes(32))),
        r matches Ok(p) ==> p.1.wf() && p.0@.len() == 32 && p.1@ == x25519_base_of(sk_e@),
        sender_id is None ==> (r matches Ok(p) ==> p.0@ == spec_encap_shared::<A, K>(
            sk_e@,
            pk_recip@,
        )),
        sender_id matches Some(kp) ==> (r matches Ok(p) ==> p.0@ == spec_auth_encap_shared::<A, K>(
            sk_e@,
            pk_recip@,
            kp.0@,
            kp.1@,
        )),
        sender_id is None ==> (r matches Ok(p) ==> forall|skr: Seq<u8>|
            skr.len() == 32 && pk_recip@ == x25519_base_of(skr) ==> p.0@
                == spec_decap_shared::<A, K>(skr, p.1@)),
        sender_id matches Some(kp) ==> (kp.1@ == x25519_base_of(kp.0@) ==> (r matches Ok(p)
            ==> forall|skr: Seq<u8>|
                skr.len() == 32 && pk_recip@ == x25519_base_of(skr) ==> p.0@
                    == spec_auth_decap_shared::<A, K>(skr, p.1@, kp.1@))),
{
    let pk_e = X25519::sk_to_pk(sk_e);
    let dh1 = match X25519::kex(sk_e, pk_recip) {
        Ok(d) => d,
        Err(e) => {
            return Err(e);
        },
    };
    match sender_id {
        None => {
            let mut kem_context = pk_e.marshal();
            let pk_r_bytes = pk_recip.marshal();
            extend_bytes(&mut kem_context, pk_r_bytes.as_slice());
            let dh_bytes = dh1.marshal();
            let ss = kem_ss::<A, K>(dh_bytes.as_slice(), kem_context.as_slice());
            proof {
                assert forall|skr: Seq<u8>|
                    skr.len() == 32 && pk_recip@ == x25519_base_of(skr) implies ss@
                    == spec_decap_shared::<A, K>(skr, pk_e@) by {
                    assert(dh1@ == x25519_of(skr, x25519_base_of(sk_e@)));
                    assert(pk_e@ + pk_recip@ == pk_e@ + x25519_base_of(skr));
                }
            }
            Ok((ss, EncappedKey(pk_e)))
        },
        Some(kp) => {
            let dh2 = match X25519::kex(&kp.0, pk_recip) {
                Ok(d) => d,
                Err(e) => {
                    return Err(e);
                },
            };
            let mut dh_bytes = dh1.marshal();
            let dh2_bytes = dh2.marshal();
            extend_bytes(&mut dh_bytes, dh2_bytes.as_slice());
            let mut kem_context = pk_e.marshal();
            let pk_r_bytes = pk_recip.marshal();
            extend_bytes(&mut kem_context, pk_r_bytes.as_slice());
            let pk_s_bytes = kp.1.marshal();
            extend_bytes(&mut kem_context, pk_s_bytes.as_slice());
            let ss = kem_ss::<A, K>(dh_bytes.as_slice(), kem_context.as_slice());
            proof {
                if kp.1@ == x25519_base_of(kp.0@) {
                    assert forall|skr: Seq<u8>|
                        skr.len() == 32 && pk_recip@ == x25519_base_of(skr) implies ss@
                        == spec_auth_decap_shared::<A, K>(skr, pk_e@, kp.1@) by {
                        assert(dh1@ == x25519_of(skr, x25519_base_of(sk_e@)));
                        assert(dh2@ == x25519_of(skr, x25519_base_of(kp.0@)));
                        assert(dh_bytes@ == x25519_of(skr, pk_e@) + x25519_of(skr, kp.1@));
                        assert(kem_context@ == pk_e@ + x25519_base_of(skr) + kp.1@);
                    }
                }
            }
            Ok((ss, EncappedKey(pk_e)))
        },
    }
}

/// Decapsulation: recovers the shared secret from the recipient's private
/// key, the received encapsulated key and, in the authenticated modes, the
/// sender's claimed identity public key. Fails with `InvalidKeyExchange`
/// exactly when a raw exchange is all-zero, and then produces no secret.
pub fn decap<A: Aead, K: Kdf>(
    sk_recip: &PrivateKey,
    encapped_key: &EncappedKey,
    pk_sender: Option<&PublicKey>,
) -> (r: Result<Vec<u8>, HpkeError>)
    requires
        sk_recip.wf(),
        encapped_key.wf(),
        pk_sender matches Some(pk) ==> pk.wf(),
    ensures
        r matches Err(e) ==> e == HpkeError::InvalidKeyExchange,
        pk_sender is None ==> ((r is Err) <==> x25519_of(sk_recip@, encapped_key@) == zero_bytes(
            32,
        )),
        pk_sender matches Some(pks) ==> ((r is Err) <==> (x25519_of(sk_recip@, encapped_key@)
            == zero_bytes(32) || x25519_of(sk_recip@, pks@) == zero_bytes(32))),
        pk_sender is None ==> (r matches Ok(ss) ==> ss@ == spec_decap_shared::<A, K>(
            sk_recip@,
            encapped_key@,
        ) && ss@.len() == 32),
        pk_sender matches Some(pks) ==> (r matches Ok(ss) ==> ss@ == spec_auth_decap_shared::<A, K>(
            sk_recip@,
            encapped_key@,
            pks@,
        ) && ss@.len() == 32),
{
    let dh1 = match X25519::kex(sk_recip, &encapped_key.0) {
        Ok(d) => d,
        Err(e) => {
            return Err(e);
        },
    };
    let pk_recip = X25519::sk_to_pk(sk_recip);
    match pk_sender {
        None => {
            let mut kem_context = encapped_key.marshal();
            let pk_r_bytes = pk_recip.marshal();
            extend_bytes(&mut kem_context, pk_r_bytes.as_slice());
            let dh_bytes = dh1.marshal();
            let ss = kem_ss::<A, K>(dh_bytes.as_slice(), kem_context.as_slice());
            Ok(ss)
        },
        Some(pks) => {
            let dh2 = match X25519::kex(sk_recip, pks) {
                Ok(d) => d,
                Err(e) => {
                    return Err(e);
                },
            };
            let mut dh_bytes = dh1.marshal();
            let dh2_bytes = dh2.marshal();
            extend_bytes(&mut dh_bytes, dh2_bytes.as_slice());
            let mut kem_context = encapped_key.marshal();
            let pk_r_bytes = pk_recip.marshal();
            extend_bytes(&mut kem_context, pk_r_bytes.as_slice());
            let pk_s_bytes = pks.marshal();
            extend_bytes(&mut kem_context, pk_s_bytes.as_slice());
            let ss = kem_ss::<A, K>(dh_bytes.as_slice(), kem_context.as_slice());
            Ok(ss)
        },
    }
}

} // verus!
