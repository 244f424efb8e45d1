//! The four operating modes: Base, Psk, Auth and AuthPsk.
//!
//! A mode optionally carries a pre-shared key bundle and optionally the
//! sender's identity key material; its single-byte identifier enters the key
//! schedule. A pre-shared key and its identifier must be supplied together:
//! exactly one of them empty is rejected with `InvalidPsk`.
use vstd::prelude::*;

use crate::byteops::extend_bytes;
use crate::kex::{PrivateKey, PublicKey, x25519_base_of};

verus! {

/// A pre-shared key and its identifier.
#[derive(Clone)]
pub struct PskBundle {
    pub psk: Vec<u8>,
    pub psk_id: Vec<u8>,
}

/// The sender's operating mode: an optional PSK bundle and an optional
/// identity keypair.
pub enum OpModeS {
    Base,
    Psk(PskBundle),
    Auth((PrivateKey, PublicKey)),
    AuthPsk((PrivateKey, PublicKey), PskBundle),
}

/// The receiver's operating mode: an optional PSK bundle and, for the
/// authenticated modes, the sender's claimed identity public key.
pub enum OpModeR {
    Base,
    Psk(PskBundle),
    Auth(PublicKey),
    AuthPsk(PublicKey, PskBundle),
}

impl OpModeS {
    /// The single-byte mode identifier the key schedule consumes.
    pub open spec fn spec_mode_id(&self) -> u8 {
        match self {
            OpModeS::Base => 0,
            OpModeS::Psk(_) => 1,
            OpModeS::Auth(_) => 2,
            OpModeS::AuthPsk(_, _) => 3,
        }
    }

    /// The pre-shared key, empty in the modes that carry none.
    pub open spec fn spec_psk(&self) -> Seq<u8> {
        match self {
            OpModeS::Psk(b) => b.psk@,
            OpModeS::AuthPsk(_, b) => b.psk@,
            _ => Seq::<u8>::empty(),
        }
    }

    /// The pre-shared key identifier, empty in the modes that carry none.
    pub open spec fn spec_psk_id(&self) -> Seq<u8> {
        match self {
            OpModeS::Psk(b) => b.psk_id@,
            OpModeS::AuthPsk(_, b) => b.psk_id@,
            _ => Seq::<u8>::empty(),
        }
    }

    /// The sender's identity key material, as views, in the authenticated
    /// modes.
    pub open spec fn spec_sender_id(&self) -> Option<(Seq<u8>, Seq<u8>)> {
        match self {
            OpModeS::Auth(kp) => Some((kp.0@, kp.1@)),
            OpModeS::AuthPsk(kp, _) => Some((kp.0@, kp.1@)),
            _ => None,
        }
    }

    /// The PSK pairing the schedule demands: key and identifier are either
    /// both present or both absent.
    pub open spec fn pairing_ok(&self) -> bool {
        (self.spec_psk().len() == 0) == (self.spec_psk_id().len() == 0)
    }

    /// In the authenticated modes, the carried public key really is the
    /// public key of the carried private key.
    pub open spec fn auth_keys_match(&self) -> bool {
        match self.spec_sender_id() {
            Some(kp) => kp.1 == x25519_base_of(kp.0),
            None => true,
        }
    }

    /// Every key the mode carries has its fixed length.
    pub open spec fn wf(&self) -> bool {
        match self {
            OpModeS::Auth(kp) => kp.0@.len() == 32 && kp.1@.len() == 32,
            OpModeS::AuthPsk(kp, _) => kp.0@.len() == 32 && kp.1@.len() == 32,
            _ => true,
        }
    }

    /// The single-byte mode identifier.
    pub fn mode_id(&self) -> (r: u8)
        ensures
            r == self.spec_mode_id(),
    {
        match self {
            OpModeS::Base => 0,
            OpModeS::Psk(_) => 1,
            OpModeS::Auth(_) => 2,
            OpModeS::AuthPsk(_, _) => 3,
        }
    }

    /// Whether the PSK pairing holds.
    pub fn validate(&self) -> (r: bool)
        ensures
            r == self.pairing_ok(),
    {
        match self {
            OpModeS::Psk(b) => (b.psk.len() == 0) == (b.psk_id.len() == 0),
            OpModeS::AuthPsk(_, b) => (b.psk.len() == 0) == (b.psk_id.len() == 0),
            _ => true,
        }
    }

    /// The pre-shared key as a fresh byte vector.
    pub fn psk_bytes(&self) -> (r: Vec<u8>)
        ensures
            r@ == self.spec_psk(),
    {
        let mut v: Vec<u8> = Vec::new();
        match self {
            OpModeS::Psk(b) => extend_bytes(&mut v, b.psk.as_slice()),
            OpModeS::AuthPsk(_, b) => extend_bytes(&mut v, b.psk.as_slice()),
            _ => (),
        }
        proof {
            assert(v@ =~= self.spec_psk());
        }
        v
    }

    /// The pre-shared key identifier as a fresh byte vector.
    pub fn psk_id_bytes(&self) -> (r: Vec<u8>)
        ensures
            r@ == self.spec_psk_id(),
    {
        let mut v: Vec<u8> = Vec::new();
        match self {
            OpModeS::Psk(b) => extend_bytes(&mut v, b.psk_id.as_slice()),
            OpModeS::AuthPsk(_, b) => extend_bytes(&mut v, b.psk_id.as_slice()),
            _ => (),
        }
        proof {
            assert(v@ =~= self.spec_psk_id());
        }
        v
    }

    /// The sender's identity keypair in the authenticated modes.
    pub fn sender_id(&self) -> (r: Option<&(PrivateKey, PublicKey)>)
        ensures
            match r {
                Some(kp) => self.spec_sender_id() == Some((kp.0@, kp.1@)),
                None => self.spec_sender_id() is None,
            },
    {
        match self {
            OpModeS::Auth(kp) => Some(kp),
            OpModeS::AuthPsk(kp, _) => Some(kp),
            _ => None,
        }
    }
}

impl OpModeR {
    /// The single-byte mode identifier the key schedule consumes.
    pub open spec fn spec_mode_id(&self) -> u8 {
        match self {
            OpModeR::Base => 0,
            OpModeR::Psk(_) => 1,
            OpModeR::Auth(_) => 2,
            OpModeR::AuthPsk(_, _) => 3,
        }
    }

    /// The pre-shared key, empty in the modes that carry none.
    pub open spec fn spec_psk(&self) -> Seq<u8> {
        match self {
            OpModeR::Psk(b) => b.psk@,
            OpModeR::AuthPsk(_, b) => b.psk@,
            _ => Seq::<u8>::empty(),
        }
    }

    /// The pre-shared key identifier, empty in the modes that carry none.
    pub open spec fn spec_psk_id(&self) -> Seq<u8> {
        match self {
            OpModeR::Psk(b) => b.psk_id@,
            OpModeR::AuthPsk(_, b) => b.psk_id@,
            _ => Seq::<u8>::empty(),
        }
    }

    /// The sender's claimed identity public key in the authenticated modes.
    pub open spec fn spec_pk_sender(&self) -> Option<Seq<u8>> {
        match self {
            OpModeR::Auth(pk) => Some(pk@),
            OpModeR::AuthPsk(pk, _) => Some(pk@),
            _ => None,
        }
    }

    /// The PSK pairing the schedule demands.
    pub open spec fn pairing_ok(&self) -> bool {
        (self.spec_psk().len() == 0) == (self.spec_psk_id().len() == 0)
    }

    /// Every key the mode carries has its fixed length.
    pub open spec fn wf(&self) -> bool {
        match self {
            OpModeR::Auth(pk) => pk@.len() == 32,
            OpModeR::AuthPsk(pk, _) => pk@.len() == 32,
            _ => true,
        }
    }

    /// The single-byte mode identifier.
    pub fn mode_id(&self) -> (r: u8)
        ensures
            r == self.spec_mode_id(),
    {
        match self {
            OpModeR::Base => 0,
            OpModeR::Psk(_) => 1,
            OpModeR::Auth(_) => 2,
            OpModeR::AuthPsk(_, _) => 3,
        }
    }

    /// Whether the PSK pairing holds.
    pub fn validate(&self) -> (r: bool)
        ensures
            r == self.pairing_ok(),
    {
        match self {
            OpModeR::Psk(b) => (b.psk.len() == 0) == (b.psk_id.len() == 0),
            OpModeR::AuthPsk(_, b) => (b.psk.len() == 0) == (b.psk_id.len() == 0),
            _ => true,
        }
    }

    /// The pre-shared key as a fresh byte vector.
    pub fn psk_bytes(&self) -> (r: Vec<u8>)
        ensures
            r@ == self.spec_psk(),
    {
        let mut v: Vec<u8> = Vec::new();
        match self {
            OpModeR::Psk(b) => extend_bytes(&mut v, b.psk.as_slice()),
            OpModeR::AuthPsk(_, b) => extend_bytes(&mut v, b.psk.as_slice()),
            _ => (),
        }
        proof {
            assert(v@ =~= self.spec_psk());
        }
        v
    }

    /// The pre-shared key identifier as a fresh byte vector.
    pub fn psk_id_bytes(&self) -> (r: Vec<u8>)
        ensures
            r@ == self.spec_psk_id(),
    {
        let mut v: Vec<u8> = Vec::new();
        match self {
            OpModeR::Psk(b) => extend_bytes(&mut v, b.psk_id.as_slice()),
            OpModeR::AuthPsk(_, b) => extend_bytes(&mut v, b.psk_id.as_slice()),
            _ => (),
        }
        proof {
            assert(v@ =~= self.spec_psk_id());
        }
        v
    }

    /// The sender's claimed identity public key in the authenticated modes.
    pub fn pk_sender(&self) -> (r: Option<&PublicKey>)
        ensures
            match r {
                Some(pk) => self.spec_pk_sender() == Some(pk@),
                None => self.spec_pk_sender() is None,
            },
    {
        match self {
            OpModeR::Auth(pk) => Some(pk),
            OpModeR::AuthPsk(pk, _) => Some(pk),
            _ => None,
        }
    }
}

} // verus!
