use circle_chat::message::{EnvelopeError, Message};
use rand::rngs::OsRng;
use rsa::{pkcs1v15, RsaPrivateKey, RsaPublicKey};
use sha2::{Digest, Sha256};

fn keypair() -> (RsaPrivateKey, RsaPublicKey) {
    let private_key = RsaPrivateKey::new(&mut OsRng, 512).expect("key generation");
    let public_key = RsaPublicKey::from(&private_key);
    (private_key, public_key)
}

fn construct(body: &str, attachments: Vec<Vec<u8>>, key: &RsaPrivateKey) -> Message {
    Message::new(
        7,
        false,
        None,
        false,
        body.to_string(),
        attachments,
        "alice".to_string(),
        key,
    )
    .expect("construction")
}

fn canonical_of(m: &Message) -> Vec<u8> {
    Message::create_message_data(
        m.message_id,
        m.channel_id,
        m.is_response,
        m.is_response_to,
        m.is_broadcast,
        &m.body,
        &m.attachments,
        m.timestamp,
        &m.author,
    )
}

fn field_hex(json: &str, key: &str) -> Vec<u8> {
    let marker = format!("\"{}\":\"", key);
    let start = json.find(&marker).expect("field present") + marker.len();
    let end = json[start..].find('"').expect("closing quote") + start;
    hex::decode(&json[start..end]).expect("hex field")
}

#[test]
fn constructed_message_verifies_with_matching_key() {
    let (sk1, pk1) = keypair();
    let (_, pk2) = keypair();
    let m = construct("hi", vec![], &sk1);
    assert!(m.verify(&pk1));
    assert!(!m.verify(&pk2));
}

#[test]
fn tampering_with_any_byte_breaks_verification() {
    let (sk, pk) = keypair();
    let m = construct("hi", vec![vec![1, 2, 3]], &sk);
    let data = canonical_of(&m);
    for i in 0..data.len() {
        let mut tampered = data.clone();
        tampered[i] ^= 0x01;
        let digest = Sha256::digest(&tampered).to_vec();
        assert!(pk
            .verify(
                pkcs1v15::Pkcs1v15Sign::new::<Sha256>(),
                &digest,
                &m.signature
            )
            .is_err());
    }
    // The untampered encoding still checks out.
    let digest = Sha256::digest(&data).to_vec();
    assert!(pk
        .verify(
            pkcs1v15::Pkcs1v15Sign::new::<Sha256>(),
            &digest,
            &m.signature
        )
        .is_ok());
}

#[test]
fn encoding_is_deterministic() {
    let a = Message::create_message_data(
        1,
        2,
        true,
        Some(9),
        false,
        "body",
        &[vec![1], vec![2, 3]],
        42,
        "alice",
    );
    let b = Message::create_message_data(
        1,
        2,
        true,
        Some(9),
        false,
        "body",
        &[vec![1], vec![2, 3]],
        42,
        "alice",
    );
    assert_eq!(a, b);
}

#[test]
fn absent_and_zero_response_targets_encode_alike() {
    let with_none = Message::create_message_data(1, 2, false, None, false, "b", &[], 42, "a");
    let with_zero = Message::create_message_data(1, 2, false, Some(0), false, "b", &[], 42, "a");
    assert_eq!(with_none, with_zero);
    // The response flag itself does carry a byte of its own: flipping it
    // changes the encoding even though the zero target keeps the sentinel.
    let flagged = Message::create_message_data(1, 2, true, Some(0), false, "b", &[], 42, "a");
    assert_ne!(with_none, flagged);
}

#[test]
fn encoding_has_the_documented_layout() {
    let data = Message::create_message_data(0, 7, false, None, false, "hi", &[], 1000, "alice");
    let mut expected: Vec<u8> = Vec::new();
    expected.extend_from_slice(&[0, 0, 0, 0, 0, 0, 0, 0]); // message_id
    expected.extend_from_slice(&[0, 0, 0, 0, 0, 0, 0, 7]); // channel_id
    expected.push(0); // is_response
    expected.extend_from_slice(&[0, 0, 0, 0, 0, 0, 0, 0]); // absent is_response_to
    expected.push(0); // is_broadcast
    expected.extend_from_slice(&[0, 0, 0, 0, 0, 0, 0, 2]); // body length
    expected.extend_from_slice(b"hi");
    expected.extend_from_slice(&[0, 0, 0, 0, 0, 0, 0, 0]); // attachment count
    expected.extend_from_slice(&[0, 0, 0, 0, 0, 0, 3, 0xe8]); // timestamp
    expected.extend_from_slice(&[0, 0, 0, 0, 0, 0, 0, 5]); // author length
    expected.extend_from_slice(b"alice");
    assert_eq!(data, expected);
}

#[test]
fn length_prefixes_keep_field_splits_apart() {
    // Without length prefixes, moving a byte from the body into an
    // attachment (or into the author) would leave the concatenation — and
    // so the signature — unchanged. The prefixes keep the splits apart.
    let body_holds_it = Message::create_message_data(0, 7, false, None, false, "ab", &[], 0, "c");
    let attachment_holds_it =
        Message::create_message_data(0, 7, false, None, false, "a", &[vec![b'b']], 0, "c");
    let author_holds_it = Message::create_message_data(0, 7, false, None, false, "a", &[], 0, "bc");
    assert_ne!(body_holds_it, attachment_holds_it);
    assert_ne!(body_holds_it, author_holds_it);
    assert_ne!(attachment_holds_it, author_holds_it);
}

#[test]
fn attachment_order_affects_the_encoding() {
    let ab = Message::create_message_data(0, 7, false, None, false, "", &[vec![1], vec![2]], 0, "a");
    let ba = Message::create_message_data(0, 7, false, None, false, "", &[vec![2], vec![1]], 0, "a");
    assert_ne!(ab, ba);
}

#[test]
fn signature_matches_a_direct_rsa_signature() {
    let (sk, _) = keypair();
    let m = construct("hi", vec![vec![9, 9]], &sk);
    let digest = Sha256::digest(&canonical_of(&m)).to_vec();
    let direct = sk
        .sign(pkcs1v15::Pkcs1v15Sign::new::<Sha256>(), &digest)
        .unwrap();
    assert_eq!(m.signature, direct);
}

#[test]
fn construction_assigns_placeholder_id_and_current_time() {
    let (sk, _) = keypair();
    let m = construct("hi", vec![], &sk);
    assert_eq!(m.message_id, 0);
    assert_eq!(m.channel_id, 7);
    assert_eq!(m.body, "hi");
    assert_eq!(m.author, "alice");
    assert!(m.timestamp >= 1_600_000_000);
}

#[test]
fn packaged_record_is_signed_over_the_transmitted_representation() {
    let (sender_sk, sender_pk) = keypair();
    let (recipient_sk, recipient_pk) = keypair();
    let m = construct("hi", vec![], &sender_sk);
    let json = m.encrypt_for_sending(&recipient_pk, &sender_sk).unwrap();

    let body_ct = field_hex(&json, "body");
    let timestamp_ct = field_hex(&json, "timestamp");
    let signature = field_hex(&json, "signature");
    assert!(json.contains("\"attachments\":[]"));
    assert!(json.contains("\"author\":\"alice\""));
    assert!(json.starts_with("{\"message_id\":0,\"channel_id\":7,"));

    let wire_data = Message::create_wire_data(
        m.message_id,
        m.channel_id,
        m.is_response,
        m.is_response_to,
        m.is_broadcast,
        &body_ct,
        &[],
        &timestamp_ct,
        &m.author,
    );
    let digest = Sha256::digest(&wire_data).to_vec();
    assert!(sender_pk
        .verify(pkcs1v15::Pkcs1v15Sign::new::<Sha256>(), &digest, &signature)
        .is_ok());

    // Only the recipient's private key recovers the body.
    let plain = recipient_sk
        .decrypt(pkcs1v15::Pkcs1v15Encrypt, &body_ct)
        .unwrap();
    assert_eq!(plain, b"hi");
    match sender_sk.decrypt(pkcs1v15::Pkcs1v15Encrypt, &body_ct) {
        Ok(garbage) => assert_ne!(garbage, b"hi"),
        Err(_) => {}
    }

    // The timestamp ciphertext carries the eight big-endian seconds bytes.
    let ts_plain = recipient_sk
        .decrypt(pkcs1v15::Pkcs1v15Encrypt, &timestamp_ct)
        .unwrap();
    assert_eq!(ts_plain, m.timestamp.to_be_bytes());
}

#[test]
fn every_attachment_ciphertext_is_transmitted() {
    let (sender_sk, _) = keypair();
    let (recipient_sk, recipient_pk) = keypair();
    let m = construct("hi", vec![vec![1, 2, 3], vec![4, 5]], &sender_sk);
    let json = m.encrypt_for_sending(&recipient_pk, &sender_sk).unwrap();

    let marker = "\"attachments\":[";
    let start = json.find(marker).unwrap() + marker.len();
    let end = json[start..].find(']').unwrap() + start;
    let cts: Vec<Vec<u8>> = json[start..end]
        .split(',')
        .map(|q| hex::decode(q.trim_matches('"')).unwrap())
        .collect();
    assert_eq!(cts.len(), 2);
    let first = recipient_sk
        .decrypt(pkcs1v15::Pkcs1v15Encrypt, &cts[0])
        .unwrap();
    let second = recipient_sk
        .decrypt(pkcs1v15::Pkcs1v15Encrypt, &cts[1])
        .unwrap();
    assert_eq!(first, vec![1u8, 2, 3]);
    assert_eq!(second, vec![4u8, 5]);
}

#[test]
fn encryption_failure_aborts_packaging() {
    let (sender_sk, _) = keypair();
    let (_, recipient_pk) = keypair();
    // A 512-bit key takes at most 53 plaintext bytes under PKCS#1 v1.5.
    let long_body = "x".repeat(54);
    let m = construct(&long_body, vec![], &sender_sk);
    assert_eq!(
        m.encrypt_for_sending(&recipient_pk, &sender_sk),
        Err(EnvelopeError::Encryption)
    );
    let m2 = construct("hi", vec![vec![0; 54]], &sender_sk);
    assert_eq!(
        m2.encrypt_for_sending(&recipient_pk, &sender_sk),
        Err(EnvelopeError::Encryption)
    );
}

#[test]
fn repeated_packaging_randomizes_ciphertexts() {
    let (sender_sk, _) = keypair();
    let (_, recipient_pk) = keypair();
    let m = construct("hi", vec![], &sender_sk);
    let a = m.encrypt_for_sending(&recipient_pk, &sender_sk).unwrap();
    let b = m.encrypt_for_sending(&recipient_pk, &sender_sk).unwrap();
    assert_ne!(field_hex(&a, "body"), field_hex(&b, "body"));
}

#[test]
fn hex_rendering_is_lowercase_pairs() {
    let mut out = String::from("x");
    circle_chat::text::push_hex(&mut out, &[0xbe, 0xef, 0x00, 0x0a]);
    assert_eq!(out, "xbeef000a");
}

#[test]
fn decimal_rendering_matches() {
    let mut out = String::new();
    circle_chat::text::push_dec(&mut out, 0);
    assert_eq!(out, "0");
    let mut out = String::new();
    circle_chat::text::push_dec(&mut out, 1234567890);
    assert_eq!(out, "1234567890");
    let mut out = String::new();
    circle_chat::text::push_dec(&mut out, u64::MAX);
    assert_eq!(out, "18446744073709551615");
}
