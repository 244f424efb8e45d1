//! Behavioral tests for the HPKE core: context round trips, exporter
//! independence, sequence overflow, serialization, the PSK pairing rule and
//! the all-zero exchange check.
use hpke::HpkeError;
use hpke::aead::{Aead, AeadCtxR, AeadCtxS, AeadTag, AesGcm128, AesGcm256, ChaCha20Poly1305};
use hpke::kdf::HkdfSha256;
use hpke::kem::EncappedKey;
use hpke::kex::{PrivateKey, PublicKey, X25519};
use hpke::op_mode::{OpModeR, OpModeS, PskBundle};
use hpke::setup::{setup_receiver, setup_sender};
use hpke::single_shot::{single_shot_open, single_shot_seal};

use rand::{RngCore, SeedableRng, rngs::StdRng};

/// Builds a matching sender/receiver context pair in Base mode.
fn gen_ctx_pair<A: Aead>() -> (AeadCtxS<A, HkdfSha256>, AeadCtxR<A, HkdfSha256>) {
    let (sk_recip, pk_recip) = X25519::gen_keypair();
    let info = b"some application info";
    let (encapped_key, sender_ctx) =
        setup_sender::<A, HkdfSha256>(&OpModeS::Base, &pk_recip, info).expect("setup_sender failed");
    let receiver_ctx =
        setup_receiver::<A, HkdfSha256>(&OpModeR::Base, &sk_recip, &encapped_key, info)
            .expect("setup_receiver failed");
    (sender_ctx, receiver_ctx)
}

/// Encryption context secret export does not change with the sequence
/// number.
#[test]
fn test_export_idempotence() {
    let (mut sender_ctx, _) = gen_ctx_pair::<ChaCha20Poly1305>();

    let mut secret1 = vec![0u8; 16];
    sender_ctx
        .export(b"test_export_idempotence", &mut secret1)
        .unwrap();

    let mut plaintext = b"back hand".to_vec();
    sender_ctx.seal(&mut plaintext, b"").expect("seal() failed");

    let mut secret2 = vec![0u8; 16];
    sender_ctx
        .export(b"test_export_idempotence", &mut secret2)
        .unwrap();

    assert_eq!(secret1, secret2);
}

/// Sequence overflow permits exactly one more operation and then refuses.
#[test]
fn test_overflow() {
    let (mut sender_ctx, mut receiver_ctx) = gen_ctx_pair::<ChaCha20Poly1305>();
    sender_ctx.set_seq_to_max();
    receiver_ctx.set_seq_to_max();

    let msg = b"draxx them sklounst";
    let aad = b"with my prayers";

    // One more round trip must work.
    let mut plaintext = msg.to_vec();
    let tag = sender_ctx.seal(&mut plaintext, aad).expect("seal() failed");
    let mut ciphertext = plaintext;
    receiver_ctx
        .open(&mut ciphertext, aad, &tag)
        .expect("open() failed");
    let roundtrip_plaintext = ciphertext;
    assert_eq!(msg.to_vec(), roundtrip_plaintext);

    // The next operation on either side must report the overflow.
    let mut plaintext = msg.to_vec();
    match sender_ctx.seal(&mut plaintext, aad) {
        Err(HpkeError::SeqOverflow) => {}
        Err(e) => panic!("seal() should have overflowed. Instead got {:?}", e),
        _ => panic!("seal() should have overflowed. Instead it succeeded"),
    }

    let mut dummy_ciphertext = vec![0u8; 32];
    let dummy_tag = AeadTag::<ChaCha20Poly1305>::unmarshal(&[0u8; 16]).unwrap();
    match receiver_ctx.open(&mut dummy_ciphertext, aad, &dummy_tag) {
        Err(HpkeError::SeqOverflow) => {}
        Err(e) => panic!("open() should have overflowed. Instead got {:?}", e),
        _ => panic!("open() should have overflowed. Instead it succeeded"),
    }
}

/// An unmarshal-marshal round trip returns the exact public key bytes; no
/// clamping happens on the way in.
#[test]
fn test_pubkey_marshal_correctness() {
    let mut csprng = StdRng::from_entropy();

    let mut orig_bytes = vec![0u8; PublicKey::size()];
    csprng.fill_bytes(&mut orig_bytes);

    let pk = PublicKey::unmarshal(&orig_bytes).unwrap();
    let pk_bytes = pk.marshal();

    assert_eq!(orig_bytes, pk_bytes);
}

/// A marshal-unmarshal round trip on a generated keypair lands on the same
/// values.
#[test]
fn test_dh_marshal_correctness() {
    let (sk, pk) = X25519::gen_keypair();
    let (sk_bytes, pk_bytes) = (sk.marshal(), pk.marshal());

    let new_sk = PrivateKey::unmarshal(&sk_bytes).unwrap();
    let new_pk = PublicKey::unmarshal(&pk_bytes).unwrap();

    assert!(
        new_sk.marshal() == sk.marshal(),
        "private key doesn't marshal correctly"
    );
    assert!(
        new_pk.marshal() == pk.marshal(),
        "public key doesn't marshal correctly"
    );
}

/// A context round trip: open() decrypts what seal() encrypted, and seal()
/// is not a no-op.
fn round_trip_ctx<A: Aead>() {
    let (mut sender_ctx, mut receiver_ctx) = gen_ctx_pair::<A>();

    let msg = b"Love it or leave it, you better gain way";
    let aad = b"You better hit bull's eye, the kid don't play";

    let mut ciphertext = msg.to_vec();
    let tag = sender_ctx.seal(&mut ciphertext, aad).expect("seal() failed");

    // seal() must not be a no-op.
    assert!(ciphertext != msg.to_vec());

    receiver_ctx
        .open(&mut ciphertext, aad, &tag)
        .expect("open() failed");
    let decrypted = ciphertext;
    assert_eq!(decrypted, msg.to_vec());
}

#[test]
fn test_ctx_correctness_aes128() {
    round_trip_ctx::<AesGcm128>();
}

#[test]
fn test_ctx_correctness_aes256() {
    round_trip_ctx::<AesGcm256>();
}

#[test]
fn test_ctx_correctness_chacha() {
    round_trip_ctx::<ChaCha20Poly1305>();
}

/// The literal Base-mode scenario: ChaCha20-Poly1305 with info `b"abc"`,
/// empty aad and message `b"hello"`; the tag is 16 bytes on the wire.
#[test]
fn test_base_mode_hello() {
    let (sk_recip, pk_recip) = X25519::gen_keypair();
    let info = b"abc";

    let (encapped_key, mut sender_ctx) =
        setup_sender::<ChaCha20Poly1305, HkdfSha256>(&OpModeS::Base, &pk_recip, info)
            .expect("setup_sender failed");

    let mut buf = b"hello".to_vec();
    let tag = sender_ctx.seal(&mut buf, b"").expect("seal() failed");
    assert_eq!(tag.marshal().len(), 16);

    let mut receiver_ctx =
        setup_receiver::<ChaCha20Poly1305, HkdfSha256>(&OpModeR::Base, &sk_recip, &encapped_key, info)
            .expect("setup_receiver failed");
    receiver_ctx.open(&mut buf, b"", &tag).expect("open() failed");
    assert_eq!(buf, b"hello".to_vec());
}

/// The AuthPsk scenario: a round trip succeeds, and a receiver holding a
/// different PSK fails the tag check.
#[test]
fn test_authpsk_round_trip_and_wrong_psk() {
    let (sk_recip, pk_recip) = X25519::gen_keypair();
    let (sk_sender, pk_sender) = X25519::gen_keypair();
    let info = b"authpsk info";
    let aad = b"some aad";

    let bundle = PskBundle {
        psk: vec![0x5au8; 32],
        psk_id: b"id".to_vec(),
    };
    let sender_mode = OpModeS::AuthPsk((sk_sender, pk_sender.clone()), bundle.clone());

    let (encapped_key, mut sender_ctx) =
        setup_sender::<ChaCha20Poly1305, HkdfSha256>(&sender_mode, &pk_recip, info)
            .expect("setup_sender failed");

    let msg = b"a message both sides agree on";
    let mut buf = msg.to_vec();
    let tag = sender_ctx.seal(&mut buf, aad).expect("seal() failed");

    // The honest receiver opens it.
    let receiver_mode = OpModeR::AuthPsk(pk_sender.clone(), bundle.clone());
    let mut receiver_ctx = setup_receiver::<ChaCha20Poly1305, HkdfSha256>(
        &receiver_mode,
        &sk_recip,
        &encapped_key,
        info,
    )
    .expect("setup_receiver failed");
    let mut opened = buf.clone();
    receiver_ctx.open(&mut opened, aad, &tag).expect("open() failed");
    assert_eq!(opened, msg.to_vec());

    // A receiver with a different PSK must fail the tag check.
    let wrong_bundle = PskBundle {
        psk: vec![0x5bu8; 32],
        psk_id: b"id".to_vec(),
    };
    let wrong_mode = OpModeR::AuthPsk(pk_sender, wrong_bundle);
    let mut wrong_ctx = setup_receiver::<ChaCha20Poly1305, HkdfSha256>(
        &wrong_mode,
        &sk_recip,
        &encapped_key,
        info,
    )
    .expect("setup_receiver failed");
    let mut garbled = buf.clone();
    match wrong_ctx.open(&mut garbled, aad, &tag) {
        Err(HpkeError::InvalidTag) => {}
        other => panic!("expected InvalidTag, got {:?}", other),
    }
}

/// Single-shot seal and open round-trip in AuthPsk mode.
#[test]
fn test_single_shot_correctness() {
    let mut csprng = StdRng::from_entropy();

    let msg = b"Good night, a-ding ding ding ding ding";
    let aad = b"Five four three two one";
    let info = b"why would you think in a million years that that would actually work";

    let mut psk = vec![0u8; 32];
    csprng.fill_bytes(&mut psk);
    let psk_bundle = PskBundle {
        psk,
        psk_id: b"preshared key attempt #5, take 2".to_vec(),
    };

    let (sk_sender_id, pk_sender_id) = X25519::gen_keypair();
    let (sk_recip, pk_recip) = X25519::gen_keypair();

    let sender_mode = OpModeS::AuthPsk((sk_sender_id, pk_sender_id.clone()), psk_bundle.clone());
    let receiver_mode = OpModeR::AuthPsk(pk_sender_id, psk_bundle);

    let mut ciphertext = msg.to_vec();
    let (encapped_key, tag) = single_shot_seal::<ChaCha20Poly1305, HkdfSha256>(
        &sender_mode,
        &pk_recip,
        info,
        &mut ciphertext,
        aad,
    )
    .expect("single_shot_seal() failed");

    // Make sure seal() isn't a no-op.
    assert!(ciphertext != msg.to_vec());

    single_shot_open::<ChaCha20Poly1305, HkdfSha256>(
        &receiver_mode,
        &sk_recip,
        &encapped_key,
        info,
        &mut ciphertext,
        aad,
        &tag,
    )
    .expect("single_shot_open() failed");
    assert_eq!(ciphertext, msg.to_vec());
}

/// Sender and receiver contexts derived from the same inputs agree: their
/// exporters return the same bytes, before and after the data channel is
/// used.
#[test]
fn test_key_schedule_agreement_via_export() {
    let (mut sender_ctx, mut receiver_ctx) = gen_ctx_pair::<AesGcm128>();

    let mut sender_secret = vec![0u8; 32];
    let mut receiver_secret = vec![0u8; 32];
    sender_ctx.export(b"agreement", &mut sender_secret).unwrap();
    receiver_ctx
        .export(b"agreement", &mut receiver_secret)
        .unwrap();
    assert_eq!(sender_secret, receiver_secret);

    // Different info strings must derive different secrets.
    let mut other_secret = vec![0u8; 32];
    sender_ctx.export(b"agreement2", &mut other_secret).unwrap();
    assert_ne!(sender_secret, other_secret);

    // Using the channel changes neither side's exporter.
    let mut buf = b"ping".to_vec();
    let tag = sender_ctx.seal(&mut buf, b"").expect("seal() failed");
    receiver_ctx.open(&mut buf, b"", &tag).expect("open() failed");

    let mut sender_secret2 = vec![0u8; 32];
    let mut receiver_secret2 = vec![0u8; 32];
    sender_ctx.export(b"agreement", &mut sender_secret2).unwrap();
    receiver_ctx
        .export(b"agreement", &mut receiver_secret2)
        .unwrap();
    assert_eq!(sender_secret, sender_secret2);
    assert_eq!(receiver_secret, receiver_secret2);
}

/// Sender and receiver advance their counters in lockstep: messages opened
/// in order succeed, and a message opened out of order fails its tag check.
#[test]
fn test_sequence_lockstep() {
    let (mut sender_ctx, mut receiver_ctx) = gen_ctx_pair::<ChaCha20Poly1305>();

    let mut first = b"first message".to_vec();
    let tag1 = sender_ctx.seal(&mut first, b"").expect("seal() failed");
    let mut second = b"second message".to_vec();
    let tag2 = sender_ctx.seal(&mut second, b"").expect("seal() failed");

    // Out of order: the second ciphertext under the first nonce must fail.
    let mut out_of_order = second.clone();
    match receiver_ctx.open(&mut out_of_order, b"", &tag2) {
        Err(HpkeError::InvalidTag) => {}
        other => panic!("expected InvalidTag, got {:?}", other),
    }

    // In order, both open fine.
    receiver_ctx.open(&mut first, b"", &tag1).expect("open() failed");
    assert_eq!(first, b"first message".to_vec());
    receiver_ctx.open(&mut second, b"", &tag2).expect("open() failed");
    assert_eq!(second, b"second message".to_vec());
}

/// A tag of any length other than 16 is rejected with `InvalidEncoding`.
#[test]
fn test_tag_unmarshal_wrong_length() {
    match AeadTag::<ChaCha20Poly1305>::unmarshal(&[0u8; 15]) {
        Err(HpkeError::InvalidEncoding) => {}
        other => panic!("expected InvalidEncoding, got {:?}", other.err()),
    }
    match AeadTag::<AesGcm128>::unmarshal(&[0u8; 17]) {
        Err(HpkeError::InvalidEncoding) => {}
        other => panic!("expected InvalidEncoding, got {:?}", other.err()),
    }
    assert!(AeadTag::<AesGcm256>::unmarshal(&[0u8; 16]).is_ok());
}

/// Keys and encapsulated keys of the wrong length are rejected with
/// `InvalidEncoding`.
#[test]
fn test_key_unmarshal_wrong_length() {
    match PublicKey::unmarshal(&[0u8; 31]) {
        Err(HpkeError::InvalidEncoding) => {}
        other => panic!("expected InvalidEncoding, got {:?}", other.err()),
    }
    match PrivateKey::unmarshal(&[0u8; 33]) {
        Err(HpkeError::InvalidEncoding) => {}
        other => panic!("expected InvalidEncoding, got {:?}", other.err()),
    }
    match EncappedKey::unmarshal(b"short") {
        Err(HpkeError::InvalidEncoding) => {}
        other => panic!("expected InvalidEncoding, got {:?}", other.err()),
    }
}

/// The all-zero public key forces an all-zero Diffie-Hellman result, which
/// every DHKEM path must reject with `InvalidKeyExchange`.
#[test]
fn test_all_zero_dh_rejected() {
    let (sk, _) = X25519::gen_keypair();
    let zero_pk = PublicKey::unmarshal(&[0u8; 32]).unwrap();

    match X25519::kex(&sk, &zero_pk) {
        Err(HpkeError::InvalidKeyExchange) => {}
        Ok(_) => panic!("kex with the zero point should have failed"),
        Err(e) => panic!("expected InvalidKeyExchange, got {:?}", e),
    }

    match setup_sender::<ChaCha20Poly1305, HkdfSha256>(&OpModeS::Base, &zero_pk, b"info") {
        Err(HpkeError::InvalidKeyExchange) => {}
        Ok(_) => panic!("setup_sender to the zero point should have failed"),
        Err(e) => panic!("expected InvalidKeyExchange, got {:?}", e),
    }
}

/// A pre-shared key without its identifier, or an identifier without its
/// key, is rejected with `InvalidPsk` on both ends.
#[test]
fn test_psk_pairing_validation() {
    let (sk_recip, pk_recip) = X25519::gen_keypair();

    let half_bundle = PskBundle {
        psk: vec![],
        psk_id: b"id without a key".to_vec(),
    };
    match setup_sender::<ChaCha20Poly1305, HkdfSha256>(
        &OpModeS::Psk(half_bundle),
        &pk_recip,
        b"info",
    ) {
        Err(HpkeError::InvalidPsk) => {}
        other => panic!("expected InvalidPsk, got {:?}", other.map(|_| ())),
    }

    let other_half = PskBundle {
        psk: b"key without an id".to_vec(),
        psk_id: vec![],
    };
    let enc = EncappedKey::unmarshal(&[1u8; 32]).unwrap();
    match setup_receiver::<ChaCha20Poly1305, HkdfSha256>(
        &OpModeR::Psk(other_half),
        &sk_recip,
        &enc,
        b"info",
    ) {
        Err(HpkeError::InvalidPsk) => {}
        other => panic!("expected InvalidPsk, got {:?}", other.map(|_| ())),
    }
}

/// An exporter request longer than 255 hash blocks is rejected with
/// `InvalidKdfLength` and leaves the buffer unchanged.
#[test]
fn test_export_too_long() {
    let (sender_ctx, _) = gen_ctx_pair::<ChaCha20Poly1305>();

    let mut ok_buf = vec![0u8; 255 * 32];
    sender_ctx.export(b"long", &mut ok_buf).expect("export of 255 blocks should work");

    let mut too_long = vec![7u8; 255 * 32 + 1];
    match sender_ctx.export(b"long", &mut too_long) {
        Err(HpkeError::InvalidKdfLength) => {}
        other => panic!("expected InvalidKdfLength, got {:?}", other),
    }
    assert_eq!(too_long, vec![7u8; 255 * 32 + 1]);
}

/// Psk-mode round trip, and a tampered aad fails the tag check.
#[test]
fn test_psk_mode_round_trip() {
    let (sk_recip, pk_recip) = X25519::gen_keypair();
    let info = b"psk info";
    let bundle = PskBundle {
        psk: vec![0x77u8; 32],
        psk_id: b"a psk identifier".to_vec(),
    };

    let (encapped_key, mut sender_ctx) =
        setup_sender::<AesGcm256, HkdfSha256>(&OpModeS::Psk(bundle.clone()), &pk_recip, info)
            .expect("setup_sender failed");
    let msg = b"psk protected message";
    let mut buf = msg.to_vec();
    let tag = sender_ctx.seal(&mut buf, b"the aad").expect("seal() failed");

    let mut receiver_ctx = setup_receiver::<AesGcm256, HkdfSha256>(
        &OpModeR::Psk(bundle),
        &sk_recip,
        &encapped_key,
        info,
    )
    .expect("setup_receiver failed");

    // A different aad must fail the tag check and not advance the counter.
    let mut tampered = buf.clone();
    match receiver_ctx.open(&mut tampered, b"not the aad", &tag) {
        Err(HpkeError::InvalidTag) => {}
        other => panic!("expected InvalidTag, got {:?}", other),
    }

    // The right aad still opens, because the failed attempt left seq alone.
    receiver_ctx
        .open(&mut buf, b"the aad", &tag)
        .expect("open() failed");
    assert_eq!(buf, msg.to_vec());
}

/// Auth-mode round trip: the receiver checks against the sender's identity
/// key, and a different identity key fails the tag check.
#[test]
fn test_auth_mode_round_trip() {
    let (sk_recip, pk_recip) = X25519::gen_keypair();
    let (sk_sender, pk_sender) = X25519::gen_keypair();
    let info = b"auth info";

    let sender_mode = OpModeS::Auth((sk_sender, pk_sender.clone()));
    let (encapped_key, mut sender_ctx) =
        setup_sender::<AesGcm128, HkdfSha256>(&sender_mode, &pk_recip, info)
            .expect("setup_sender failed");
    let msg = b"authenticated message";
    let mut buf = msg.to_vec();
    let tag = sender_ctx.seal(&mut buf, b"").expect("seal() failed");

    // A receiver expecting a different sender identity fails.
    let (_, pk_other) = X25519::gen_keypair();
    let mut wrong_ctx = setup_receiver::<AesGcm128, HkdfSha256>(
        &OpModeR::Auth(pk_other),
        &sk_recip,
        &encapped_key,
        info,
    )
    .expect("setup_receiver failed");
    let mut garbled = buf.clone();
    match wrong_ctx.open(&mut garbled, b"", &tag) {
        Err(HpkeError::InvalidTag) => {}
        other => panic!("expected InvalidTag, got {:?}", other),
    }

    // The honest receiver opens it.
    let mut receiver_ctx = setup_receiver::<AesGcm128, HkdfSha256>(
        &OpModeR::Auth(pk_sender),
        &sk_recip,
        &encapped_key,
        info,
    )
    .expect("setup_receiver failed");
    receiver_ctx.open(&mut buf, b"", &tag).expect("open() failed");
    assert_eq!(buf, msg.to_vec());
}
