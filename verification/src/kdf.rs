//! The key-derivation capability: HKDF with a fixed hash, exposed through
//! labeled extract and expand operations as the draft prescribes.
//!
//! A labeled operation prefixes its keying material with the protocol label
//! `"RFCXXXX "`, the ciphersuite identifier and an operation label, so that
//! no two derivations in different roles can collide.
use vstd::prelude::*;

use crate::HpkeError;
use crate::byteops::extend_bytes;

verus! {

/// Named result of `hkdf::Hkdf::<sha2::Sha256>::extract`: HKDF-Extract is a
/// deterministic function of the salt and the input keying material.
pub uninterp spec fn hkdf_sha256_extract_of(salt: Seq<u8>, ikm: Seq<u8>) -> Seq<u8>;

/// Named result of `hkdf::Hkdf::<sha2::Sha256>::expand`: HKDF-Expand is a
/// deterministic function of the pseudorandom key, the info string and the
/// requested length.
pub uninterp spec fn hkdf_sha256_expand_of(prk: Seq<u8>, info: Seq<u8>, l: nat) -> Seq<u8>;

/// Relies on `hkdf::Hkdf::<sha2::Sha256>::extract` (RFC 5869 HKDF-Extract
/// with SHA-256): deterministic, returns one 32-byte hash output, and accepts
/// a salt of any length.
#[verifier::external_body]
fn hkdf_sha256_extract(salt: &[u8], ikm: &[u8]) -> (r: Vec<u8>)
    ensures
        r@ == hkdf_sha256_extract_of(salt@, ikm@),
        r@.len() == 32,
{
    let (prk, _) = hkdf::Hkdf::<sha2::Sha256>::extract(Some(salt), ikm);
    prk.to_vec()
}

/// Relies on `hkdf::Hkdf::<sha2::Sha256>::from_prk` and `expand` (RFC 5869
/// HKDF-Expand with SHA-256): deterministic; `from_prk` accepts any key of at
/// least the hash size, and `expand` fails exactly when the requested output
/// is longer than 255 hash blocks.
#[verifier::external_body]
fn hkdf_sha256_expand(prk: &[u8], info: &[u8], l: usize) -> (r: Result<Vec<u8>, HpkeError>)
    requires
        prk@.len() == 32,
    ensures
        match r {
            Ok(okm) => okm@ == hkdf_sha256_expand_of(prk@, info@, l as nat) && okm@.len() == l
                && l <= 255 * 32,
            Err(e) => e == HpkeError::InvalidKdfLength && l > 255 * 32,
        },
{
    let hk = hkdf::Hkdf::<sha2::Sha256>::from_prk(prk).unwrap();
    let mut okm = vec![0u8; l];
    match hk.expand(info, &mut okm) {
        Ok(()) => Ok(okm),
        Err(_) => Err(HpkeError::InvalidKdfLength),
    }
}

/// A key-derivation capability: a fixed-size extract step and a
/// variable-length expand step, plus the registry identifier.
pub trait Kdf: Sized {
    /// The registry code of this KDF.
    spec fn spec_kdf_id() -> u16;

    /// The hash output size `Nh` in bytes.
    spec fn spec_nh() -> nat;

    /// What `extract` returns.
    spec fn spec_extract(salt: Seq<u8>, ikm: Seq<u8>) -> Seq<u8>;

    /// What `expand` returns on success.
    spec fn spec_expand(prk: Seq<u8>, info: Seq<u8>, l: nat) -> Seq<u8>;

    /// The hash size of every supported KDF lies between 32 and 64 bytes.
    proof fn lemma_props()
        ensures
            32 <= Self::spec_nh() <= 64,
    ;

    /// The registry code of this KDF.
    fn kdf_id() -> (r: u16)
        ensures
            r == Self::spec_kdf_id(),
    ;

    /// The hash output size `Nh` in bytes.
    fn nh() -> (r: usize)
        ensures
            r as nat == Self::spec_nh(),
    ;

    /// HKDF-Extract: derives a pseudorandom key of `Nh` bytes.
    fn extract(salt: &[u8], ikm: &[u8]) -> (r: Vec<u8>)
        ensures
            r@ == Self::spec_extract(salt@, ikm@),
            r@.len() == Self::spec_nh(),
    ;

    /// HKDF-Expand: derives `l` output bytes from a pseudorandom key.
    /// Fails exactly when `l` exceeds 255 hash blocks.
    fn expand(prk: &[u8], info: &[u8], l: usize) -> (r: Result<Vec<u8>, HpkeError>)
        requires
            prk@.len() == Self::spec_nh(),
        ensures
            match r {
                Ok(okm) => okm@ == Self::spec_expand(prk@, info@, l as nat) && okm@.len() == l
                    && l as nat <= 255 * Self::spec_nh(),
                Err(e) => e == HpkeError::InvalidKdfLength && l as nat > 255 * Self::spec_nh(),
            },
    ;
}

/// HKDF with SHA-256.
pub struct HkdfSha256 {}

impl Kdf for HkdfSha256 {
    open spec fn spec_kdf_id() -> u16 {
        0x0001
    }

    open spec fn spec_nh() -> nat {
        32
    }

    open spec fn spec_extract(salt: Seq<u8>, ikm: Seq<u8>) -> Seq<u8> {
        hkdf_sha256_extract_of(salt, ikm)
    }

    open spec fn spec_expand(prk: Seq<u8>, info: Seq<u8>, l: nat) -> Seq<u8> {
        hkdf_sha256_expand_of(prk, info, l)
    }

    proof fn lemma_props() {
    }

    fn kdf_id() -> u16 {
        0x0001
    }

    fn nh() -> usize {
        32
    }

    fn extract(salt: &[u8], ikm: &[u8]) -> Vec<u8> {
        hkdf_sha256_extract(salt, ikm)
    }

    fn expand(prk: &[u8], info: &[u8], l: usize) -> Result<Vec<u8>, HpkeError> {
        hkdf_sha256_expand(prk, info, l)
    }
}

/// The label prefix `"RFCXXXX "` that every labeled KDF input carries.
pub open spec fn rfc_label() -> Seq<u8> {
    seq![0x52u8, 0x46u8, 0x43u8, 0x58u8, 0x58u8, 0x58u8, 0x58u8, 0x20u8]
}

/// The two-byte big-endian encoding of a value below 65536.
pub open spec fn be16(x: nat) -> Seq<u8> {
    seq![(x / 256) as u8, (x % 256) as u8]
}

/// The ciphersuite identifier `"HPKE" || kem_id || kdf_id || aead_id`.
pub open spec fn suite_id_of(kem_id: u16, kdf_id: u16, aead_id: u16) -> Seq<u8> {
    seq![0x48u8, 0x50u8, 0x4bu8, 0x45u8] + be16(kem_id as nat) + be16(kdf_id as nat) + be16(
        aead_id as nat,
    )
}

/// What `labeled_extract` returns: HKDF-Extract over the prefixed and
/// suite-tagged keying material.
pub open spec fn labeled_extract_of<K: Kdf>(
    suite_id: Seq<u8>,
    salt: Seq<u8>,
    label: Seq<u8>,
    ikm: Seq<u8>,
) -> Seq<u8> {
    K::spec_extract(salt, rfc_label() + suite_id + label + ikm)
}

/// What `labeled_expand` returns on success: HKDF-Expand over the
/// length-prefixed, suite-tagged info string.
pub open spec fn labeled_expand_of<K: Kdf>(
    suite_id: Seq<u8>,
    prk: Seq<u8>,
    label: Seq<u8>,
    info: Seq<u8>,
    l: nat,
) -> Seq<u8> {
    K::spec_expand(prk, be16(l) + rfc_label() + suite_id + label + info, l)
}

/// The exact bytes of the `"RFCXXXX "` prefix.
fn rfc_label_vec() -> (r: Vec<u8>)
    ensures
        r@ == rfc_label(),
{
    let mut v: Vec<u8> = Vec::new();
    v.push(0x52u8);
    v.push(0x46u8);
    v.push(0x43u8);
    v.push(0x58u8);
    v.push(0x58u8);
    v.push(0x58u8);
    v.push(0x58u8);
    v.push(0x20u8);
    proof {
        assert(v@ =~= rfc_label());
    }
    v
}

/// The ciphersuite identifier as bytes.
pub fn suite_id_vec(kem_id: u16, kdf_id: u16, aead_id: u16) -> (r: Vec<u8>)
    ensures
        r@ == suite_id_of(kem_id, kdf_id, aead_id),
{
    let mut v: Vec<u8> = Vec::new();
    v.push(0x48u8);
    v.push(0x50u8);
    v.push(0x4bu8);
    v.push(0x45u8);
    v.push((kem_id / 256) as u8);
    v.push((kem_id % 256) as u8);
    v.push((kdf_id / 256) as u8);
    v.push((kdf_id % 256) as u8);
    v.push((aead_id / 256) as u8);
    v.push((aead_id % 256) as u8);
    proof {
        assert(v@ =~= suite_id_of(kem_id, kdf_id, aead_id));
    }
    v
}

/// `labeled_extract(salt, label, ikm)` from the draft: HKDF-Extract over
/// `"RFCXXXX " || suite_id || label || ikm`.
pub fn labeled_extract<K: Kdf>(suite_id: &[u8], salt: &[u8], label: &[u8], ikm: &[u8]) -> (r: Vec<
    u8,
>)
    ensures
        r@ == labeled_extract_of::<K>(suite_id@, salt@, label@, ikm@),
        r@.len() == K::spec_nh(),
{
    let mut labeled_ikm = rfc_label_vec();
    extend_bytes(&mut labeled_ikm, suite_id);
    extend_bytes(&mut labeled_ikm, label);
    extend_bytes(&mut labeled_ikm, ikm);
    K::extract(salt, labeled_ikm.as_slice())
}

/// `labeled_expand(prk, label, info, l)` from the draft: HKDF-Expand over
/// `encode_u16(l) || "RFCXXXX " || suite_id || label || info`. Fails with
/// `InvalidKdfLength` exactly when `l` exceeds 255 hash blocks.
pub fn labeled_expand<K: Kdf>(
    suite_id: &[u8],
    prk: &[u8],
    label: &[u8],
    info: &[u8],
    l: usize,
) -> (r: Result<Vec<u8>, HpkeError>)
    requires
        prk@.len() == K::spec_nh(),
    ensures
        match r {
            Ok(okm) => okm@ == labeled_expand_of::<K>(suite_id@, prk@, label@, info@, l as nat)
                && okm@.len() == l && l as nat <= 255 * K::spec_nh(),
            Err(e) => e == HpkeError::InvalidKdfLength && l as nat > 255 * K::spec_nh(),
        },
{
    proof {
        K::lemma_props();
    }
    let nh = K::nh();
    if l > 255 * nh {
        return Err(HpkeError::InvalidKdfLength);
    }
    let mut labeled_info: Vec<u8> = Vec::new();
    labeled_info.push((l / 256) as u8);
    labeled_info.push((l % 256) as u8);
    proof {
        assert(labeled_info@ =~= be16(l as nat));
    }
    let rfc = rfc_label_vec();
    extend_bytes(&mut labeled_info, rfc.as_slice());
    extend_bytes(&mut labeled_info, suite_id);
    extend_bytes(&mut labeled_info, label);
    extend_bytes(&mut labeled_info, info);
    K::expand(prk, labeled_info.as_slice(), l)
}

} // verus!
