//! The key-exchange capability: X25519 over fixed 32-byte encodings.
//!
//! Keys are held as their wire bytes. Serialization is a pure byte copy in
//! both directions and never clamps, so a deserialize of a serialize returns
//! the identical key.
use vstd::prelude::*;

use crate::HpkeError;
use crate::byteops::{extend_bytes, zero_bytes, zero_vec};

verus! {

/// Named result of `x25519_dalek::StaticSecret::diffie_hellman`: the X25519
/// function of the raw private scalar and the peer's public u-coordinate.
pub uninterp spec fn x25519_of(sk: Seq<u8>, pk: Seq<u8>) -> Seq<u8>;

/// Named result of `x25519_dalek::PublicKey::from(&StaticSecret)`: clamped
/// multiplication of the basepoint by the raw private scalar.
pub uninterp spec fn x25519_base_of(sk: Seq<u8>) -> Seq<u8>;

/// Relies on `x25519_dalek::StaticSecret::diffie_hellman`: deterministic in
/// the two raw 32-byte inputs, 32 bytes out. The final clause is the
/// Diffie-Hellman agreement of X25519: against a peer public key that is the
/// basepoint multiple of some scalar, both orders of the exchange produce the
/// same shared secret.
#[verifier::external_body]
fn x25519_dh(sk: &[u8], pk: &[u8]) -> (r: Vec<u8>)
    requires
        sk@.len() == 32,
        pk@.len() == 32,
    ensures
        r@ == x25519_of(sk@, pk@),
        r@.len() == 32,
        forall|sk2: Seq<u8>|
            sk2.len() == 32 && pk@ == x25519_base_of(sk2) ==> r@ == x25519_of(
                sk2,
                x25519_base_of(sk@),
            ),
{
    let sk_arr: [u8; 32] = sk.try_into().unwrap();
    let pk_arr: [u8; 32] = pk.try_into().unwrap();
    let secret = x25519_dalek::StaticSecret::from(sk_arr);
    let public = x25519_dalek::PublicKey::from(pk_arr);
    secret.diffie_hellman(&public).as_bytes().to_vec()
}

/// Relies on `x25519_dalek::PublicKey::from(&StaticSecret)`: deterministic
/// clamped basepoint multiplication of the raw 32-byte scalar, 32 bytes out.
#[verifier::external_body]
fn x25519_base(sk: &[u8]) -> (r: Vec<u8>)
    requires
        sk@.len() == 32,
    ensures
        r@ == x25519_base_of(sk@),
        r@.len() == 32,
{
    let sk_arr: [u8; 32] = sk.try_into().unwrap();
    let secret = x25519_dalek::StaticSecret::from(sk_arr);
    x25519_dalek::PublicKey::from(&secret).as_bytes().to_vec()
}

/// Relies on `rand::rngs::OsRng` (`RngCore::fill_bytes`): operating-system
/// entropy; nothing is assumed of the bytes beyond their count.
#[verifier::external_body]
pub(crate) fn random_bytes_32() -> (r: Vec<u8>)
    ensures
        r@.len() == 32,
{
    let mut buf = [0u8; 32];
    rand::RngCore::fill_bytes(&mut rand::rngs::OsRng, &mut buf);
    buf.to_vec()
}

/// Relies on `subtle::ConstantTimeEq` for byte slices: returns whether the
/// two slices have equal length and contents, in constant time for
/// equal-length inputs.
#[verifier::external_body]
pub(crate) fn ct_bytes_eq(a: &[u8], b: &[u8]) -> (r: bool)
    ensures
        r == (a@ == b@),
{
    subtle::ConstantTimeEq::ct_eq(a, b).into()
}

/// An X25519 public key: a 32-byte Montgomery u-coordinate.
#[derive(Clone)]
pub struct PublicKey {
    bytes: Vec<u8>,
}

/// An X25519 private key: a raw 32-byte scalar.
#[derive(Clone)]
pub struct PrivateKey {
    bytes: Vec<u8>,
}

/// A raw Diffie-Hellman result of 32 bytes.
pub struct KexResult {
    bytes: Vec<u8>,
}

impl View for PublicKey {
    type V = Seq<u8>;

    closed spec fn view(&self) -> Seq<u8> {
        self.bytes@
    }
}

impl View for PrivateKey {
    type V = Seq<u8>;

    closed spec fn view(&self) -> Seq<u8> {
        self.bytes@
    }
}

impl View for KexResult {
    type V = Seq<u8>;

    closed spec fn view(&self) -> Seq<u8> {
        self.bytes@
    }
}

impl PublicKey {
    /// A well-formed public key holds exactly 32 bytes.
    pub open spec fn wf(&self) -> bool {
        self@.len() == 32
    }

    /// The fixed length of the wire encoding.
    pub fn size() -> (r: usize)
        ensures
            r == 32,
    {
        32
    }

    /// Serializes the key: a pure copy of its 32 bytes.
    pub fn marshal(&self) -> (r: Vec<u8>)
        ensures
            r@ == self@,
    {
        let mut r: Vec<u8> = Vec::new();
        extend_bytes(&mut r, self.bytes.as_slice());
        r
    }

    /// Deserializes a key from exactly 32 bytes, without clamping; any other
    /// length is rejected with `InvalidEncoding`.
    pub fn unmarshal(encoded: &[u8]) -> (r: Result<PublicKey, HpkeError>)
        ensures
            encoded@.len() == 32 ==> (r matches Ok(k) && k@ == encoded@ && k.wf()),
            encoded@.len() != 32 ==> r === Err(HpkeError::InvalidEncoding),
    {
        if encoded.len() != 32 {
            Err(HpkeError::InvalidEncoding)
        } else {
            let mut bytes: Vec<u8> = Vec::new();
            extend_bytes(&mut bytes, encoded);
            Ok(PublicKey { bytes })
        }
    }
}

impl PrivateKey {
    /// A well-formed private key holds exactly 32 bytes.
    pub open spec fn wf(&self) -> bool {
        self@.len() == 32
    }

    /// The fixed length of the wire encoding.
    pub fn size() -> (r: usize)
        ensures
            r == 32,
    {
        32
    }

    /// Serializes the key: a pure copy of its 32 bytes.
    pub fn marshal(&self) -> (r: Vec<u8>)
        ensures
            r@ == self@,
    {
        let mut r: Vec<u8> = Vec::new();
        extend_bytes(&mut r, self.bytes.as_slice());
        r
    }

    /// Deserializes a key from exactly 32 bytes; any other length is
    /// rejected with `InvalidEncoding`.
    pub fn unmarshal(encoded: &[u8]) -> (r: Result<PrivateKey, HpkeError>)
        ensures
            encoded@.len() == 32 ==> (r matches Ok(k) && k@ == encoded@ && k.wf()),
            encoded@.len() != 32 ==> r === Err(HpkeError::InvalidEncoding),
    {
        if encoded.len() != 32 {
            Err(HpkeError::InvalidEncoding)
        } else {
            let mut bytes: Vec<u8> = Vec::new();
            extend_bytes(&mut bytes, encoded);
            Ok(PrivateKey { bytes })
        }
    }
}

impl KexResult {
    /// A well-formed result holds exactly 32 bytes.
    pub open spec fn wf(&self) -> bool {
        self@.len() == 32
    }

    /// Serializes the shared result: a pure copy of its 32 bytes.
    pub fn marshal(&self) -> (r: Vec<u8>)
        ensures
            r@ == self@,
    {
        let mut r: Vec<u8> = Vec::new();
        extend_bytes(&mut r, self.bytes.as_slice());
        r
    }
}

/// The X25519 key-exchange capability.
pub struct X25519 {}

impl X25519 {
    /// Generates a keypair from operating-system entropy. The public key is
    /// the basepoint multiple of the private scalar.
    pub fn gen_keypair() -> (r: (PrivateKey, PublicKey))
        ensures
            r.0.wf(),
            r.1.wf(),
            r.1@ == x25519_base_of(r.0@),
    {
        let sk_bytes = random_bytes_32();
        let pk_bytes = x25519_base(sk_bytes.as_slice());
        (PrivateKey { bytes: sk_bytes }, PublicKey { bytes: pk_bytes })
    }

    /// Computes the public key of a private key.
    pub fn sk_to_pk(sk: &PrivateKey) -> (r: PublicKey)
        requires
            sk.wf(),
        ensures
            r.wf(),
            r@ == x25519_base_of(sk@),
    {
        let pk_bytes = x25519_base(sk.bytes.as_slice());
        PublicKey { bytes: pk_bytes }
    }

    /// The Diffie-Hellman operation. Fails with `InvalidKeyExchange` exactly
    /// when the raw result is the all-zero string, the contributory check
    /// the draft requires; the comparison is made in constant time.
    pub fn kex(sk: &PrivateKey, pk: &PublicKey) -> (r: Result<KexResult, HpkeError>)
        requires
            sk.wf(),
            pk.wf(),
        ensures
            x25519_of(sk@, pk@) == zero_bytes(32) ==> r === Err(HpkeError::InvalidKeyExchange),
            x25519_of(sk@, pk@) != zero_bytes(32) ==> (r matches Ok(res) && res@ == x25519_of(
                sk@,
                pk@,
            ) && res.wf()),
            r matches Ok(res) ==> forall|sk2: Seq<u8>|
                sk2.len() == 32 && pk@ == x25519_base_of(sk2) ==> res@ == x25519_of(
                    sk2,
                    x25519_base_of(sk@),
                ),
    {
        let dh = x25519_dh(sk.bytes.as_slice(), pk.bytes.as_slice());
        let zeros = zero_vec(32);
        if ct_bytes_eq(dh.as_slice(), zeros.as_slice()) {
            Err(HpkeError::InvalidKeyExchange)
        } else {
            Ok(KexResult { bytes: dh })
        }
    }
}

} // verus!
