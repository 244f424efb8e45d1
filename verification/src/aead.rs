//! The authenticated-encryption capability and the HPKE encryption context.
//!
//! The context owns the symmetric key, the base nonce, the exporter secret
//! and a big-endian sequence counter of nonce length. Each seal or open uses
//! the nonce `base_nonce XOR seq`, then advances the counter by exactly one;
//! when the counter carries out of its top byte the context refuses every
//! further operation with `SeqOverflow`.
use vstd::prelude::*;

use core::marker::PhantomData;

use aes_gcm::{AeadInOut, KeyInit};

use crate::HpkeError;
use crate::byteops::{be_val, increment_seq, is_all_max, xor_bytes, xor_bytes_vec, zero_bytes, zero_vec};
use crate::kdf::{Kdf, labeled_expand, labeled_expand_of, suite_id_of, suite_id_vec};

verus! {

/// Named result of AES-128-GCM encryption: the ciphertext and tag are a
/// deterministic function of key, nonce, associated data and plaintext.
pub uninterp spec fn aes_gcm_128_seal_of(key: Seq<u8>, nonce: Seq<u8>, aad: Seq<u8>, pt: Seq<u8>) -> (
    Seq<u8>,
    Seq<u8>,
);

/// Named result of AES-128-GCM decryption: `Some(plaintext)` when the tag
/// authenticates the ciphertext, `None` otherwise.
pub uninterp spec fn aes_gcm_128_open_of(
    key: Seq<u8>,
    nonce: Seq<u8>,
    aad: Seq<u8>,
    ct: Seq<u8>,
    tag: Seq<u8>,
) -> Option<Seq<u8>>;

/// Named result of AES-256-GCM encryption.
pub uninterp spec fn aes_gcm_256_seal_of(key: Seq<u8>, nonce: Seq<u8>, aad: Seq<u8>, pt: Seq<u8>) -> (
    Seq<u8>,
    Seq<u8>,
);

/// Named result of AES-256-GCM decryption.
pub uninterp spec fn aes_gcm_256_open_of(
    key: Seq<u8>,
    nonce: Seq<u8>,
    aad: Seq<u8>,
    ct: Seq<u8>,
    tag: Seq<u8>,
) -> Option<Seq<u8>>;

/// Named result of ChaCha20-Poly1305 encryption.
pub uninterp spec fn chacha20_poly1305_seal_of(
    key: Seq<u8>,
    nonce: Seq<u8>,
    aad: Seq<u8>,
    pt: Seq<u8>,
) -> (Seq<u8>, Seq<u8>);

/// Named result of ChaCha20-Poly1305 decryption.
pub uninterp spec fn chacha20_poly1305_open_of(
    key: Seq<u8>,
    nonce: Seq<u8>,
    aad: Seq<u8>,
    ct: Seq<u8>,
    tag: Seq<u8>,
) -> Option<Seq<u8>>;

/// Relies on `aes_gcm::Aes128Gcm` (`KeyInit::new_from_slice`,
/// `AeadInOut::encrypt_inout_detached`): deterministic; rejects exactly
/// oversized inputs, and checks the limits before touching the buffer; a
/// decryption of the produced ciphertext under the same key, nonce and
/// associated data recovers the plaintext.
#[verifier::external_body]
fn aes_gcm_128_seal(key: &[u8], nonce: &[u8], aad: &[u8], buf: &mut Vec<u8>) -> (r: Result<
    Vec<u8>,
    HpkeError,
>)
    requires
        key@.len() == 16,
        nonce@.len() == 12,
    ensures
        final(buf)@.len() == old(buf)@.len(),
        r.is_ok() <==> (old(buf)@.len() <= 0xfffffffe0 && aad@.len() <= 0x1fffffffffffffff),
        r matches Ok(tag) ==> final(buf)@ == aes_gcm_128_seal_of(key@, nonce@, aad@, old(buf)@).0
            && tag@ == aes_gcm_128_seal_of(key@, nonce@, aad@, old(buf)@).1 && tag@.len() == 16
            && aes_gcm_128_open_of(key@, nonce@, aad@, final(buf)@, tag@) == Some(old(buf)@),
        r matches Err(e) ==> e == HpkeError::Encryption && final(buf)@ == old(buf)@,
{
    let cipher = aes_gcm::Aes128Gcm::new_from_slice(key).unwrap();
    let nonce_arr = aes_gcm::aead::Nonce::<aes_gcm::Aes128Gcm>::try_from(nonce).unwrap();
    match cipher.encrypt_inout_detached(&nonce_arr, aad, buf.as_mut_slice().into()) {
        Ok(tag) => Ok(tag.to_vec()),
        Err(_) => Err(HpkeError::Encryption),
    }
}

/// Relies on `aes_gcm::Aes128Gcm` (`KeyInit::new_from_slice`,
/// `AeadInOut::decrypt_inout_detached`): deterministic; succeeds exactly when
/// the named decryption yields a plaintext, and leaves the buffer unchanged
/// on failure, the tag being checked before the keystream is applied.
#[verifier::external_body]
fn aes_gcm_128_open(key: &[u8], nonce: &[u8], aad: &[u8], buf: &mut Vec<u8>, tag: &[u8]) -> (r:
    Result<(), HpkeError>)
    requires
        key@.len() == 16,
        nonce@.len() == 12,
        tag@.len() == 16,
    ensures
        final(buf)@.len() == old(buf)@.len(),
        r.is_ok() <==> aes_gcm_128_open_of(key@, nonce@, aad@, old(buf)@, tag@) is Some,
        r.is_ok() ==> Some(final(buf)@) == aes_gcm_128_open_of(key@, nonce@, aad@, old(buf)@, tag@),
        r matches Err(e) ==> e == HpkeError::InvalidTag && final(buf)@ == old(buf)@,
{
    let cipher = aes_gcm::Aes128Gcm::new_from_slice(key).unwrap();
    let nonce_arr = aes_gcm::aead::Nonce::<aes_gcm::Aes128Gcm>::try_from(nonce).unwrap();
    let tag_arr = aes_gcm::aead::Tag::<aes_gcm::Aes128Gcm>::try_from(tag).unwrap();
    match cipher.decrypt_inout_detached(&nonce_arr, aad, buf.as_mut_slice().into(), &tag_arr) {
        Ok(()) => Ok(()),
        Err(_) => Err(HpkeError::InvalidTag),
    }
}

/// Relies on `aes_gcm::Aes256Gcm` (`KeyInit::new_from_slice`,
/// `AeadInOut::encrypt_inout_detached`): as for the 128-bit variant.
#[verifier::external_body]
fn aes_gcm_256_seal(key: &[u8], nonce: &[u8], aad: &[u8], buf: &mut Vec<u8>) -> (r: Result<
    Vec<u8>,
    HpkeError,
>)
    requires
        key@.len() == 32,
        nonce@.len() == 12,
    ensures
        final(buf)@.len() == old(buf)@.len(),
        r.is_ok() <==> (old(buf)@.len() <= 0xfffffffe0 && aad@.len() <= 0x1fffffffffffffff),
        r matches Ok(tag) ==> final(buf)@ == aes_gcm_256_seal_of(key@, nonce@, aad@, old(buf)@).0
            && tag@ == aes_gcm_256_seal_of(key@, nonce@, aad@, old(buf)@).1 && tag@.len() == 16
            && aes_gcm_256_open_of(key@, nonce@, aad@, final(buf)@, tag@) == Some(old(buf)@),
        r matches Err(e) ==> e == HpkeError::Encryption && final(buf)@ == old(buf)@,
{
    let cipher = aes_gcm::Aes256Gcm::new_from_slice(key).unwrap();
    let nonce_arr = aes_gcm::aead::Nonce::<aes_gcm::Aes256Gcm>::try_from(nonce).unwrap();
    match cipher.encrypt_inout_detached(&nonce_arr, aad, buf.as_mut_slice().into()) {
        Ok(tag) => Ok(tag.to_vec()),
        Err(_) => Err(HpkeError::Encryption),
    }
}

/// Relies on `aes_gcm::Aes256Gcm` (`KeyInit::new_from_slice`,
/// `AeadInOut::decrypt_inout_detached`): as for the 128-bit variant.
#[verifier::external_body]
fn aes_gcm_256_open(key: &[u8], nonce: &[u8], aad: &[u8], buf: &mut Vec<u8>, tag: &[u8]) -> (r:
    Result<(), HpkeError>)
    requires
        key@.len() == 32,
        nonce@.len() == 12,
        tag@.len() == 16,
    ensures
        final(buf)@.len() == old(buf)@.len(),
        r.is_ok() <==> aes_gcm_256_open_of(key@, nonce@, aad@, old(buf)@, tag@) is Some,
        r.is_ok() ==> Some(final(buf)@) == aes_gcm_256_open_of(key@, nonce@, aad@, old(buf)@, tag@),
        r matches Err(e) ==> e == HpkeError::InvalidTag && final(buf)@ == old(buf)@,
{
    let cipher = aes_gcm::Aes256Gcm::new_from_slice(key).unwrap();
    let nonce_arr = aes_gcm::aead::Nonce::<aes_gcm::Aes256Gcm>::try_from(nonce).unwrap();
    let tag_arr = aes_gcm::aead::Tag::<aes_gcm::Aes256Gcm>::try_from(tag).unwrap();
    match cipher.decrypt_inout_detached(&nonce_arr, aad, buf.as_mut_slice().into(), &tag_arr) {
        Ok(()) => Ok(()),
        Err(_) => Err(HpkeError::InvalidTag),
    }
}

/// Relies on `chacha20poly1305::ChaCha20Poly1305`
/// (`KeyInit::new_from_slice`, `AeadInOut::encrypt_inout_detached`):
/// deterministic; rejects exactly a buffer of `2^32 - 1` ChaCha blocks or
/// more, checked before any mutation; a decryption of the produced
/// ciphertext under the same inputs recovers the plaintext.
#[verifier::external_body]
fn chacha20_poly1305_seal(key: &[u8], nonce: &[u8], aad: &[u8], buf: &mut Vec<u8>) -> (r: Result<
    Vec<u8>,
    HpkeError,
>)
    requires
        key@.len() == 32,
        nonce@.len() == 12,
    ensures
        final(buf)@.len() == old(buf)@.len(),
        r.is_ok() <==> old(buf)@.len() <= 0x3fffffffbf,
        r matches Ok(tag) ==> final(buf)@ == chacha20_poly1305_seal_of(
            key@,
            nonce@,
            aad@,
            old(buf)@,
        ).0 && tag@ == chacha20_poly1305_seal_of(key@, nonce@, aad@, old(buf)@).1 && tag@.len()
            == 16 && chacha20_poly1305_open_of(key@, nonce@, aad@, final(buf)@, tag@) == Some(
            old(buf)@,
        ),
        r matches Err(e) ==> e == HpkeError::Encryption && final(buf)@ == old(buf)@,
{
    let cipher = chacha20poly1305::ChaCha20Poly1305::new_from_slice(key).unwrap();
    let nonce_arr = chacha20poly1305::Nonce::try_from(nonce).unwrap();
    match cipher.encrypt_inout_detached(&nonce_arr, aad, buf.as_mut_slice().into()) {
        Ok(tag) => Ok(tag.to_vec()),
        Err(_) => Err(HpkeError::Encryption),
    }
}

/// Relies on `chacha20poly1305::ChaCha20Poly1305`
/// (`KeyInit::new_from_slice`, `AeadInOut::decrypt_inout_detached`):
/// deterministic; succeeds exactly when the named decryption yields a
/// plaintext, and leaves the buffer unchanged on failure, the tag being
/// verified before the keystream is applied.
#[verifier::external_body]
fn chacha20_poly1305_open(key: &[u8], nonce: &[u8], aad: &[u8], buf: &mut Vec<u8>, tag: &[u8]) -> (r:
    Result<(), HpkeError>)
    requires
        key@.len() == 32,
        nonce@.len() == 12,
        tag@.len() == 16,
    ensures
        final(buf)@.len() == old(buf)@.len(),
        r.is_ok() <==> chacha20_poly1305_open_of(key@, nonce@, aad@, old(buf)@, tag@) is Some,
        r.is_ok() ==> Some(final(buf)@) == chacha20_poly1305_open_of(
            key@,
            nonce@,
            aad@,
            old(buf)@,
            tag@,
        ),
        r matches Err(e) ==> e == HpkeError::InvalidTag && final(buf)@ == old(buf)@,
{
    let cipher = chacha20poly1305::ChaCha20Poly1305::new_from_slice(key).unwrap();
    let nonce_arr = chacha20poly1305::Nonce::try_from(nonce).unwrap();
    let tag_arr = chacha20poly1305::Tag::try_from(tag).unwrap();
    match cipher.decrypt_inout_detached(&nonce_arr, aad, buf.as_mut_slice().into(), &tag_arr) {
        Ok(()) => Ok(()),
        Err(_) => Err(HpkeError::InvalidTag),
    }
}

/// An authenticated-encryption capability: a stateless seal and open over a
/// fixed key, nonce and tag size, plus the registry identifier.
pub trait Aead: Sized {
    /// The registry code of this AEAD.
    spec fn spec_aead_id() -> u16;

    /// The key size `Nk` in bytes.
    spec fn spec_nk() -> nat;

    /// The nonce size `Nn` in bytes.
    spec fn spec_nn() -> nat;

    /// The tag size `Nt` in bytes.
    spec fn spec_nt() -> nat;

    /// The largest plaintext the cipher accepts.
    spec fn spec_p_max() -> nat;

    /// The largest associated-data string the cipher accepts.
    spec fn spec_a_max() -> nat;

    /// What `seal` returns on success: the ciphertext and the tag.
    spec fn spec_seal(key: Seq<u8>, nonce: Seq<u8>, aad: Seq<u8>, pt: Seq<u8>) -> (Seq<u8>, Seq<u8>);

    /// What `open` computes: `Some(plaintext)` exactly when the tag
    /// authenticates the ciphertext.
    spec fn spec_open(key: Seq<u8>, nonce: Seq<u8>, aad: Seq<u8>, ct: Seq<u8>, tag: Seq<u8>) -> Option<
        Seq<u8>,
    >;

    /// The sizes every supported AEAD shares: a 12-byte nonce, a 16-byte
    /// tag, a key of at most 32 bytes, and room for any reasonable message.
    proof fn lemma_props()
        ensures
            16 <= Self::spec_nk() <= 32,
            Self::spec_nn() == 12,
            Self::spec_nt() == 16,
            Self::spec_p_max() >= 0x10000000,
            Self::spec_a_max() >= 0x10000000,
    ;

    /// The registry code of this AEAD.
    fn aead_id() -> (r: u16)
        ensures
            r == Self::spec_aead_id(),
    ;

    /// The key size `Nk` in bytes.
    fn nk() -> (r: usize)
        ensures
            r as nat == Self::spec_nk(),
    ;

    /// The nonce size `Nn` in bytes.
    fn nn() -> (r: usize)
        ensures
            r as nat == Self::spec_nn(),
    ;

    /// The tag size `Nt` in bytes.
    fn nt() -> (r: usize)
        ensures
            r as nat == Self::spec_nt(),
    ;

    /// Stateless detached seal in place: encrypts `buf` and returns the tag.
    /// Fails exactly on oversized inputs, leaving the buffer unchanged.
    fn seal(key: &[u8], nonce: &[u8], aad: &[u8], buf: &mut Vec<u8>) -> (r: Result<
        Vec<u8>,
        HpkeError,
    >)
        requires
            key@.len() == Self::spec_nk(),
            nonce@.len() == Self::spec_nn(),
        ensures
            final(buf)@.len() == old(buf)@.len(),
            r.is_ok() <==> (old(buf)@.len() <= Self::spec_p_max() && aad@.len()
                <= Self::spec_a_max()),
            r matches Ok(tag) ==> final(buf)@ == Self::spec_seal(key@, nonce@, aad@, old(buf)@).0
                && tag@ == Self::spec_seal(key@, nonce@, aad@, old(buf)@).1 && tag@.len()
                == Self::spec_nt() && Self::spec_open(key@, nonce@, aad@, final(buf)@, tag@)
                == Some(old(buf)@),
            r matches Err(e) ==> e == HpkeError::Encryption && final(buf)@ == old(buf)@,
    ;

    /// Stateless detached open in place: decrypts `buf` when the tag
    /// authenticates it, and leaves it unchanged otherwise.
    fn open(key: &[u8], nonce: &[u8], aad: &[u8], buf: &mut Vec<u8>, tag: &[u8]) -> (r: Result<
        (),
        HpkeError,
    >)
        requires
            key@.len() == Self::spec_nk(),
            nonce@.len() == Self::spec_nn(),
            tag@.len() == Self::spec_nt(),
        ensures
            final(buf)@.len() == old(buf)@.len(),
            r.is_ok() <==> Self::spec_open(key@, nonce@, aad@, old(buf)@, tag@) is Some,
            r.is_ok() ==> Some(final(buf)@) == Self::spec_open(key@, nonce@, aad@, old(buf)@, tag@),
            r matches Err(e) ==> e == HpkeError::InvalidTag && final(buf)@ == old(buf)@,
    ;
}

/// The implementation of AES-GCM-128.
pub struct AesGcm128 {}

impl Aead for AesGcm128 {
    open spec fn spec_aead_id() -> u16 {
        0x0001
    }

    open spec fn spec_nk() -> nat {
        16
    }

    open spec fn spec_nn() -> nat {
        12
    }

    open spec fn spec_nt() -> nat {
        16
    }

    open spec fn spec_p_max() -> nat {
        0xfffffffe0
    }

    open spec fn spec_a_max() -> nat {
        0x1fffffffffffffff
    }

    open spec fn spec_seal(key: Seq<u8>, nonce: Seq<u8>, aad: Seq<u8>, pt: Seq<u8>) -> (
        Seq<u8>,
        Seq<u8>,
    ) {
        aes_gcm_128_seal_of(key, nonce, aad, pt)
    }

    open spec fn spec_open(key: Seq<u8>, nonce: Seq<u8>, aad: Seq<u8>, ct: Seq<u8>, tag: Seq<u8>) -> Option<
        Seq<u8>,
    > {
        aes_gcm_128_open_of(key, nonce, aad, ct, tag)
    }

    proof fn lemma_props() {
    }

    fn aead_id() -> u16 {
        0x0001
    }

    fn nk() -> usize {
        16
    }

    fn nn() -> usize {
        12
    }

    fn nt() -> usize {
        16
    }

    fn seal(key: &[u8], nonce: &[u8], aad: &[u8], buf: &mut Vec<u8>) -> Result<Vec<u8>, HpkeError> {
        aes_gcm_128_seal(key, nonce, aad, buf)
    }

    fn open(key: &[u8], nonce: &[u8], aad: &[u8], buf: &mut Vec<u8>, tag: &[u8]) -> Result<
        (),
        HpkeError,
    > {
        aes_gcm_128_open(key, nonce, aad, buf, tag)
    }
}

/// The implementation of AES-GCM-256.
pub struct AesGcm256 {}

impl Aead for AesGcm256 {
    open spec fn spec_aead_id() -> u16 {
        0x0002
    }

    open spec fn spec_nk() -> nat {
        32
    }

    open spec fn spec_nn() -> nat {
        12
    }

    open spec fn spec_nt() -> nat {
        16
    }

    open spec fn spec_p_max() -> nat {
        0xfffffffe0
    }

    open spec fn spec_a_max() -> nat {
        0x1fffffffffffffff
    }

    open spec fn spec_seal(key: Seq<u8>, nonce: Seq<u8>, aad: Seq<u8>, pt: Seq<u8>) -> (
        Seq<u8>,
        Seq<u8>,
    ) {
        aes_gcm_256_seal_of(key, nonce, aad, pt)
    }

    open spec fn spec_open(key: Seq<u8>, nonce: Seq<u8>, aad: Seq<u8>, ct: Seq<u8>, tag: Seq<u8>) -> Option<
        Seq<u8>,
    > {
        aes_gcm_256_open_of(key, nonce, aad, ct, tag)
    }

    proof fn lemma_props() {
    }

    fn aead_id() -> u16 {
        0x0002
    }

    fn nk() -> usize {
        32
    }

    fn nn() -> usize {
        12
    }

    fn nt() -> usize {
        16
    }

    fn seal(key: &[u8], nonce: &[u8], aad: &[u8], buf: &mut Vec<u8>) -> Result<Vec<u8>, HpkeError> {
        aes_gcm_256_seal(key, nonce, aad, buf)
    }

    fn open(key: &[u8], nonce: &[u8], aad: &[u8], buf: &mut Vec<u8>, tag: &[u8]) -> Result<
        (),
        HpkeError,
    > {
        aes_gcm_256_open(key, nonce, aad, buf, tag)
    }
}

/// The implementation of ChaCha20-Poly1305.
pub struct ChaCha20Poly1305 {}

impl Aead for ChaCha20Poly1305 {
    open spec fn spec_aead_id() -> u16 {
        0x0003
    }

    open spec fn spec_nk() -> nat {
        32
    }

    open spec fn spec_nn() -> nat {
        12
    }

    open spec fn spec_nt() -> nat {
        16
    }

    open spec fn spec_p_max() -> nat {
        0x3fffffffbf
    }

    open spec fn spec_a_max() -> nat {
        0xffffffffffffffff
    }

    open spec fn spec_seal(key: Seq<u8>, nonce: Seq<u8>, aad: Seq<u8>, pt: Seq<u8>) -> (
        Seq<u8>,
        Seq<u8>,
    ) {
        chacha20_poly1305_seal_of(key, nonce, aad, pt)
    }

    open spec fn spec_open(key: Seq<u8>, nonce: Seq<u8>, aad: Seq<u8>, ct: Seq<u8>, tag: Seq<u8>) -> Option<
        Seq<u8>,
    > {
        chacha20_poly1305_open_of(key, nonce, aad, ct, tag)
    }

    proof fn lemma_props() {
    }

    fn aead_id() -> u16 {
        0x0003
    }

    fn nk() -> usize {
        32
    }

    fn nn() -> usize {
        12
    }

    fn nt() -> usize {
        16
    }

    fn seal(key: &[u8], nonce: &[u8], aad: &[u8], buf: &mut Vec<u8>) -> Result<Vec<u8>, HpkeError> {
        // The cipher places no reachable limit on associated data: any
        // machine-representable length is below its 64-bit bound.
        let _aad_len: usize = aad.len();
        proof {
            assert(aad@.len() <= 0xffffffffffffffff);
        }
        chacha20_poly1305_seal(key, nonce, aad, buf)
    }

    fn open(key: &[u8], nonce: &[u8], aad: &[u8], buf: &mut Vec<u8>, tag: &[u8]) -> Result<
        (),
        HpkeError,
    > {
        chacha20_poly1305_open(key, nonce, aad, buf, tag)
    }
}

/// An authentication tag of the AEAD's fixed tag length.
pub struct AeadTag<A: Aead> {
    bytes: Vec<u8>,
    marker: PhantomData<A>,
}

impl<A: Aead> View for AeadTag<A> {
    type V = Seq<u8>;

    closed spec fn view(&self) -> Seq<u8> {
        self.bytes@
    }
}

impl<A: Aead> AeadTag<A> {
    /// A well-formed tag holds exactly `Nt` bytes.
    pub open spec fn wf(&self) -> bool {
        self@.len() == A::spec_nt()
    }

    /// The fixed length of the wire encoding.
    pub fn size() -> (r: usize)
        ensures
            r as nat == A::spec_nt(),
    {
        A::nt()
    }

    /// Serializes the tag: a pure copy of its bytes.
    pub fn marshal(&self) -> (r: Vec<u8>)
        ensures
            r@ == self@,
    {
        let mut r: Vec<u8> = Vec::new();
        crate::byteops::extend_bytes(&mut r, self.bytes.as_slice());
        r
    }

    /// Deserializes a tag from exactly `Nt` bytes; any other length is
    /// rejected with `InvalidEncoding`.
    pub fn unmarshal(encoded: &[u8]) -> (r: Result<AeadTag<A>, HpkeError>)
        ensures
            encoded@.len() == A::spec_nt() ==> (r matches Ok(t) && t@ == encoded@ && t.wf()),
            encoded@.len() != A::spec_nt() ==> r == Err::<AeadTag<A>, HpkeError>(
                HpkeError::InvalidEncoding,
            ),
    {
        if encoded.len() != A::nt() {
            Err(HpkeError::InvalidEncoding)
        } else {
            let mut bytes: Vec<u8> = Vec::new();
            crate::byteops::extend_bytes(&mut bytes, encoded);
            Ok(AeadTag { bytes, marker: PhantomData })
        }
    }
}

/// The mathematical state of an encryption context.
pub ghost struct CtxView {
    pub key: Seq<u8>,
    pub base_nonce: Seq<u8>,
    pub exporter_secret: Seq<u8>,
    pub seq: Seq<u8>,
    pub overflowed: bool,
}

/// Well-formedness of a context: every component has its fixed length.
pub open spec fn ctx_wf<A: Aead, K: Kdf>(c: CtxView) -> bool {
    &&& c.key.len() == A::spec_nk()
    &&& c.base_nonce.len() == A::spec_nn()
    &&& c.seq.len() == A::spec_nn()
    &&& c.exporter_secret.len() == K::spec_nh()
}

/// The ciphersuite identifier of DHKEM(X25519, HKDF-SHA256) with the chosen
/// KDF and AEAD.
pub open spec fn spec_suite_id<A: Aead, K: Kdf>() -> Seq<u8> {
    suite_id_of(0x0020, K::spec_kdf_id(), A::spec_aead_id())
}

/// The ciphersuite identifier as bytes.
pub fn suite_id<A: Aead, K: Kdf>() -> (r: Vec<u8>)
    ensures
        r@ == spec_suite_id::<A, K>(),
{
    suite_id_vec(0x0020, K::kdf_id(), A::aead_id())
}

/// The label `"sec"` of the exporter.
pub open spec fn label_sec() -> Seq<u8> {
    seq![0x73u8, 0x65u8, 0x63u8]
}

fn label_sec_vec() -> (r: Vec<u8>)
    ensures
        r@ == label_sec(),
{
    let mut v: Vec<u8> = Vec::new();
    v.push(0x73u8);
    v.push(0x65u8);
    v.push(0x63u8);
    proof {
        assert(v@ =~= label_sec());
    }
    v
}

/// What `export` writes: a labeled expand of the exporter secret, a function
/// of nothing else in the context.
pub open spec fn spec_export<A: Aead, K: Kdf>(exporter_secret: Seq<u8>, info: Seq<u8>, l: nat) -> Seq<
    u8,
> {
    labeled_expand_of::<K>(spec_suite_id::<A, K>(), exporter_secret, label_sec(), info, l)
}

/// Exporter independence: the exported secret is a function of the exporter
/// secret, the info string and the length alone, so two contexts whose
/// exporter secrets agree export the same bytes whatever their sequence
/// state.
pub proof fn lemma_export_independent<A: Aead, K: Kdf>(c1: CtxView, c2: CtxView, info: Seq<u8>, l: nat)
    requires
        c1.exporter_secret == c2.exporter_secret,
    ensures
        spec_export::<A, K>(c1.exporter_secret, info, l) == spec_export::<A, K>(
            c2.exporter_secret,
            info,
            l,
        ),
{
}

/// The HPKE encryption context: symmetric key, base nonce, exporter secret
/// and the running sequence counter.
pub(crate) struct AeadCtx<A: Aead, K: Kdf> {
    overflowed: bool,
    key: Vec<u8>,
    nonce: Vec<u8>,
    exporter_secret: Vec<u8>,
    seq: Vec<u8>,
    marker: PhantomData<(A, K)>,
}

impl<A: Aead, K: Kdf> View for AeadCtx<A, K> {
    type V = CtxView;

    closed spec fn view(&self) -> CtxView {
        CtxView {
            key: self.key@,
            base_nonce: self.nonce@,
            exporter_secret: self.exporter_secret@,
            seq: self.seq@,
            overflowed: self.overflowed,
        }
    }
}

impl<A: Aead, K: Kdf> AeadCtx<A, K> {
    /// A well-formed context has components of the fixed lengths.
    pub open spec fn wf(&self) -> bool {
        ctx_wf::<A, K>(self@)
    }

    /// Makes a context from a raw key, base nonce and exporter secret, with
    /// the sequence counter at zero.
    pub(crate) fn new(key: Vec<u8>, nonce: Vec<u8>, exporter_secret: Vec<u8>) -> (r: AeadCtx<A, K>)
        requires
            key@.len() == A::spec_nk(),
            nonce@.len() == A::spec_nn(),
            exporter_secret@.len() == K::spec_nh(),
        ensures
            r.wf(),
            r@.key == key@,
            r@.base_nonce == nonce@,
            r@.exporter_secret == exporter_secret@,
            r@.seq == zero_bytes(A::spec_nn()),
            !r@.overflowed,
    {
        let seq = zero_vec(A::nn());
        AeadCtx { overflowed: false, key, nonce, exporter_secret, seq, marker: PhantomData }
    }

    /// Fills `out_buf` with secret bytes derived from the exporter secret;
    /// independent of the sequence counter. Fails with `InvalidKdfLength`
    /// exactly when the buffer exceeds 255 hash blocks, leaving it unchanged.
    pub fn export(&self, info: &[u8], out_buf: &mut Vec<u8>) -> (r: Result<(), HpkeError>)
        requires
            self.wf(),
        ensures
            final(out_buf)@.len() == old(out_buf)@.len(),
            old(out_buf)@.len() <= 255 * K::spec_nh() ==> (r.is_ok() && final(out_buf)@
                == spec_export::<A, K>(self@.exporter_secret, info@, old(out_buf)@.len())),
            old(out_buf)@.len() > 255 * K::spec_nh() ==> (r == Err::<(), HpkeError>(
                HpkeError::InvalidKdfLength,
            ) && final(out_buf)@ == old(out_buf)@),
    {
        let suite = suite_id::<A, K>();
        let lbl = label_sec_vec();
        let l = out_buf.len();
        match labeled_expand::<K>(
            suite.as_slice(),
            self.exporter_secret.as_slice(),
            lbl.as_slice(),
            info,
            l,
        ) {
            Ok(okm) => {
                *out_buf = okm;
                Ok(())
            },
            Err(e) => Err(e),
        }
    }

    /// Sets every byte of the sequence counter to 0xff, the counter's
    /// largest value, so the overflow discipline can be exercised without
    /// performing the preceding operations.
    pub(crate) fn set_seq_to_max(&mut self)
        requires
            old(self).wf(),
        ensures
            final(self).wf(),
            final(self)@.key == old(self)@.key,
            final(self)@.base_nonce == old(self)@.base_nonce,
            final(self)@.exporter_secret == old(self)@.exporter_secret,
            final(self)@.overflowed == old(self)@.overflowed,
            final(self)@.seq.len() == old(self)@.seq.len(),
            is_all_max(final(self)@.seq),
    {
        let n = self.seq.len();
        let mut i: usize = 0;
        while i < n
            invariant
                i <= n,
                n == self.seq@.len(),
                self.key@ == old(self).key@,
                self.nonce@ == old(self).nonce@,
                self.exporter_secret@ == old(self).exporter_secret@,
                self.overflowed == old(self).overflowed,
                forall|j: int| 0 <= j < i ==> self.seq@[j] == 0xffu8,
            decreases n - i,
        {
            self.seq.set(i, 0xffu8);
            i += 1;
        }
    }
}

/// The receiver's context: opens ciphertexts in sequence.
pub struct AeadCtxR<A: Aead, K: Kdf>(pub(crate) AeadCtx<A, K>);

impl<A: Aead, K: Kdf> View for AeadCtxR<A, K> {
    type V = CtxView;

    closed spec fn view(&self) -> CtxView {
        self.0@
    }
}

impl<A: Aead, K: Kdf> AeadCtxR<A, K> {
    /// A well-formed context has components of the fixed lengths.
    pub open spec fn wf(&self) -> bool {
        ctx_wf::<A, K>(self@)
    }

    /// Marks a fresh context as the receiver's.
    pub(crate) fn wrap(ctx: AeadCtx<A, K>) -> (r: Self)
        ensures
            r@ == ctx@,
    {
        AeadCtxR(ctx)
    }

    /// Detached open in place: decrypts `ciphertext` under the nonce
    /// `base_nonce XOR seq` and advances the counter by one on success. A
    /// context whose counter has overflowed refuses with `SeqOverflow`; a
    /// tag that does not authenticate fails with `InvalidTag` and leaves the
    /// counter where it was.
    pub fn open(&mut self, ciphertext: &mut Vec<u8>, aad: &[u8], tag: &AeadTag<A>) -> (r: Result<
        (),
        HpkeError,
    >)
        requires
            old(self).wf(),
            tag.wf(),
        ensures
            final(self).wf(),
            final(ciphertext)@.len() == old(ciphertext)@.len(),
            final(self)@.key == old(self)@.key,
            final(self)@.base_nonce == old(self)@.base_nonce,
            final(self)@.exporter_secret == old(self)@.exporter_secret,
            old(self)@.overflowed ==> (r == Err::<(), HpkeError>(HpkeError::SeqOverflow) && final(self)@ == old(self)@ && final(ciphertext)@ == old(ciphertext)@),
            !old(self)@.overflowed ==> ({
                let nonce_i = xor_bytes(old(self)@.base_nonce, old(self)@.seq);
                let res = A::spec_open(old(self)@.key, nonce_i, aad@, old(ciphertext)@, tag@);
                &&& (r.is_ok() <==> res is Some)
                &&& (r.is_ok() ==> Some(final(ciphertext)@) == res)
                &&& (r.is_ok() && is_all_max(old(self)@.seq) ==> final(self)@.overflowed)
                &&& (r.is_ok() && !is_all_max(old(self)@.seq) ==> !final(self)@.overflowed
                    && be_val(final(self)@.seq) == be_val(old(self)@.seq) + 1)
                &&& (r.is_err() ==> r == Err::<(), HpkeError>(HpkeError::InvalidTag) && final(self)@ == old(self)@ && final(ciphertext)@ == old(ciphertext)@)
            }),
    {
        if self.0.overflowed {
            Err(HpkeError::SeqOverflow)
        } else {
            let nonce = xor_bytes_vec(self.0.nonce.as_slice(), self.0.seq.as_slice());
            let res = A::open(
                self.0.key.as_slice(),
                nonce.as_slice(),
                aad,
                ciphertext,
                tag.bytes.as_slice(),
            );
            match res {
                Err(e) => Err(e),
                Ok(()) => {
                    if increment_seq(&mut self.0.seq).is_err() {
                        self.0.overflowed = true;
                    }
                    Ok(())
                },
            }
        }
    }

    /// Fills `out_buf` with exporter output; see `AeadCtx::export`.
    pub fn export(&self, info: &[u8], out_buf: &mut Vec<u8>) -> (r: Result<(), HpkeError>)
        requires
            self.wf(),
        ensures
            final(out_buf)@.len() == old(out_buf)@.len(),
            old(out_buf)@.len() <= 255 * K::spec_nh() ==> (r.is_ok() && final(out_buf)@
                == spec_export::<A, K>(self@.exporter_secret, info@, old(out_buf)@.len())),
            old(out_buf)@.len() > 255 * K::spec_nh() ==> (r == Err::<(), HpkeError>(
                HpkeError::InvalidKdfLength,
            ) && final(out_buf)@ == old(out_buf)@),
    {
        self.0.export(info, out_buf)
    }

    /// Sets the sequence counter to its largest value; see
    /// `AeadCtx::set_seq_to_max`.
    pub fn set_seq_to_max(&mut self)
        requires
            old(self).wf(),
        ensures
            final(self).wf(),
            final(self)@.key == old(self)@.key,
            final(self)@.base_nonce == old(self)@.base_nonce,
            final(self)@.exporter_secret == old(self)@.exporter_secret,
            final(self)@.overflowed == old(self)@.overflowed,
            final(self)@.seq.len() == old(self)@.seq.len(),
            is_all_max(final(self)@.seq),
    {
        self.0.set_seq_to_max();
    }
}

/// The sender's context: seals plaintexts in sequence.
pub struct AeadCtxS<A: Aead, K: Kdf>(pub(crate) AeadCtx<A, K>);

impl<A: Aead, K: Kdf> View for AeadCtxS<A, K> {
    type V = CtxView;

    closed spec fn view(&self) -> CtxView {
        self.0@
    }
}

impl<A: Aead, K: Kdf> AeadCtxS<A, K> {
    /// A well-formed context has components of the fixed lengths.
    pub open spec fn wf(&self) -> bool {
        ctx_wf::<A, K>(self@)
    }

    /// Marks a fresh context as the sender's.
    pub(crate) fn wrap(ctx: AeadCtx<A, K>) -> (r: Self)
        ensures
            r@ == ctx@,
    {
        AeadCtxS(ctx)
    }

    /// Detached seal in place: encrypts `plaintext` under the nonce
    /// `base_nonce XOR seq`, returns the tag, and advances the counter by
    /// one; the operation that carries the counter out marks the context
    /// overflowed but itself succeeds. A context whose counter has
    /// overflowed refuses with `SeqOverflow`.
    pub fn seal(&mut self, plaintext: &mut Vec<u8>, aad: &[u8]) -> (r: Result<AeadTag<A>, HpkeError>)
        requires
            old(self).wf(),
        ensures
            final(self).wf(),
            final(plaintext)@.len() == old(plaintext)@.len(),
            final(self)@.key == old(self)@.key,
            final(self)@.base_nonce == old(self)@.base_nonce,
            final(self)@.exporter_secret == old(self)@.exporter_secret,
            old(self)@.overflowed ==> (r == Err::<AeadTag<A>, HpkeError>(HpkeError::SeqOverflow)
                && final(self)@ == old(self)@ && final(plaintext)@ == old(plaintext)@),
            !old(self)@.overflowed ==> ({
                let nonce_i = xor_bytes(old(self)@.base_nonce, old(self)@.seq);
                let sealed = A::spec_seal(old(self)@.key, nonce_i, aad@, old(plaintext)@);
                &&& (r.is_ok() <==> (old(plaintext)@.len() <= A::spec_p_max() && aad@.len()
                    <= A::spec_a_max()))
                &&& (r matches Ok(tag) ==> final(plaintext)@ == sealed.0 && tag@ == sealed.1
                    && tag.wf() && A::spec_open(
                    old(self)@.key,
                    nonce_i,
                    aad@,
                    final(plaintext)@,
                    tag@,
                ) == Some(old(plaintext)@))
                &&& (r.is_ok() && is_all_max(old(self)@.seq) ==> final(self)@.overflowed)
                &&& (r.is_ok() && !is_all_max(old(self)@.seq) ==> !final(self)@.overflowed
                    && be_val(final(self)@.seq) == be_val(old(self)@.seq) + 1)
                &&& (r.is_err() ==> r == Err::<AeadTag<A>, HpkeError>(HpkeError::Encryption)
                    && final(self)@ == old(self)@ && final(plaintext)@ == old(plaintext)@)
            }),
    {
        if self.0.overflowed {
            Err(HpkeError::SeqOverflow)
        } else {
            let nonce = xor_bytes_vec(self.0.nonce.as_slice(), self.0.seq.as_slice());
            let res = A::seal(self.0.key.as_slice(), nonce.as_slice(), aad, plaintext);
            match res {
                Err(e) => Err(e),
                Ok(tag_bytes) => {
                    if increment_seq(&mut self.0.seq).is_err() {
                        self.0.overflowed = true;
                    }
                    Ok(AeadTag { bytes: tag_bytes, marker: PhantomData })
                },
            }
        }
    }

    /// Fills `out_buf` with exporter output; see `AeadCtx::export`.
    pub fn export(&self, info: &[u8], out_buf: &mut Vec<u8>) -> (r: Result<(), HpkeError>)
        requires
            self.wf(),
        ensures
            final(out_buf)@.len() == old(out_buf)@.len(),
            old(out_buf)@.len() <= 255 * K::spec_nh() ==> (r.is_ok() && final(out_buf)@
                == spec_export::<A, K>(self@.exporter_secret, info@, old(out_buf)@.len())),
            old(out_buf)@.len() > 255 * K::spec_nh() ==> (r == Err::<(), HpkeError>(
                HpkeError::InvalidKdfLength,
            ) && final(out_buf)@ == old(out_buf)@),
    {
        self.0.export(info, out_buf)
    }

    /// Sets the sequence counter to its largest value; see
    /// `AeadCtx::set_seq_to_max`.
    pub fn set_seq_to_max(&mut self)
        requires
            old(self).wf(),
        ensures
            final(self).wf(),
            final(self)@.key == old(self)@.key,
            final(self)@.base_nonce == old(self)@.base_nonce,
            final(self)@.exporter_secret == old(self)@.exporter_secret,
            final(self)@.overflowed == old(self)@.overflowed,
            final(self)@.seq.len() == old(self)@.seq.len(),
            is_all_max(final(self)@.seq),
    {
        self.0.set_seq_to_max();
    }
}

} // verus!
