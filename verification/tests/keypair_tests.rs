use base64::engine::general_purpose::STANDARD;
use base64::Engine;
use call_core::crypto::{JsonValue, KeyPair, KeyPairError};
use ed25519_dalek::{Signature, Verifier, VerifyingKey};

fn register_payload(public_key: String) -> JsonValue {
    JsonValue::Object(vec![
        ("type".to_string(), JsonValue::Text("register".to_string())),
        ("username".to_string(), JsonValue::Text("alice".to_string())),
        ("publicKey".to_string(), JsonValue::Text(public_key)),
        ("timestamp".to_string(), JsonValue::Number(1234567890)),
    ])
}

#[test]
fn test_keypair_generation() {
    let keypair = KeyPair::generate();
    let public_key = keypair.public_key_base64();

    assert_eq!(public_key.len(), 44);
}

#[test]
fn test_sign_and_verify() {
    let keypair = KeyPair::generate();
    let message = b"Hello, World!";

    let signature = keypair.sign(message);

    let verifying_key = keypair.verifying_key();
    assert!(verifying_key.verify(message, &Signature::from_bytes(&signature)).is_ok());
}

#[test]
fn test_sign_base64() {
    let keypair = KeyPair::generate();
    let message = b"Test message";

    let signature_base64 = keypair.sign_base64(message);

    assert_eq!(signature_base64.len(), 88);
}

#[test]
fn test_sign_json_message() {
    let keypair = KeyPair::generate();

    let payload = register_payload(keypair.public_key_base64());

    let signature = keypair.sign_message(&payload);

    assert!(!signature.is_empty());
    assert!(STANDARD.decode(&signature).is_ok());
}

#[test]
fn signature_has_64_bytes_and_verifies_under_the_public_key_bytes() {
    let keypair = KeyPair::generate();
    let signature = keypair.sign(b"Hello, World!");
    assert_eq!(signature.len(), 64);
    let key = VerifyingKey::from_bytes(&keypair.public_key_bytes()).unwrap();
    assert!(key.verify(b"Hello, World!", &Signature::from_bytes(&signature)).is_ok());
    assert!(keypair.verify(b"Hello, World!", &signature));
    assert!(!keypair.verify(b"Hello, World?", &signature));
}

#[test]
fn known_seed_gives_the_known_public_key_and_signature() {
    // The first test vector of RFC 8032, section 7.1.
    let seed: [u8; 32] = [
        0x9d, 0x61, 0xb1, 0x9d, 0xef, 0xfd, 0x5a, 0x60, 0xba, 0x84, 0x4a, 0xf4, 0x92, 0xec, 0x2c,
        0xc4, 0x44, 0x49, 0xc5, 0x69, 0x7b, 0x32, 0x69, 0x19, 0x70, 0x3b, 0xac, 0x03, 0x1c, 0xae,
        0x7f, 0x60,
    ];
    let keypair = KeyPair::from_seed(seed);
    let public_key: [u8; 32] = [
        0xd7, 0x5a, 0x98, 0x01, 0x82, 0xb1, 0x0a, 0xb7, 0xd5, 0x4b, 0xfe, 0xd3, 0xc9, 0x64, 0x07,
        0x3a, 0x0e, 0xe1, 0x72, 0xf3, 0xda, 0xa6, 0x23, 0x25, 0xaf, 0x02, 0x1a, 0x68, 0xf7, 0x07,
        0x51, 0x1a,
    ];
    assert_eq!(keypair.public_key_bytes(), public_key);
    assert_eq!(keypair.public_key_base64(), "11qYAYKxCrfVS/7TyWQHOg7hcvPapiMlrwIaaPcHURo=");
    let signature = keypair.sign(b"");
    assert_eq!(&signature[..4], &[0xe5, 0x56, 0x43, 0x00]);
    assert_eq!(signature[63], 0x0b);
}

#[test]
fn signing_is_deterministic_for_the_same_key_bytes() {
    let first = KeyPair::generate();
    let second = KeyPair::load_from_text(&first.secret_base64()).ok().unwrap();
    assert_eq!(first.public_key_bytes(), second.public_key_bytes());
    let payload = register_payload(first.public_key_base64());
    let a = first.sign_message(&payload);
    let b = second.sign_message(&payload);
    assert_eq!(a, b);
    assert_eq!(a.len(), 88);
    let canonical = payload.canonicalize().to_json_text();
    assert!(first.verify_base64(canonical.as_bytes(), &a));
}

#[test]
fn canonical_signature_covers_the_sorted_text() {
    let keypair = KeyPair::from_seed([7u8; 32]);
    let payload = register_payload("pk".to_string());
    let expected_text =
        r#"{"publicKey":"pk","timestamp":1234567890,"type":"register","username":"alice"}"#;
    assert_eq!(payload.canonicalize().to_json_text(), expected_text);
    assert_eq!(keypair.sign_message(&payload), keypair.sign_base64(expected_text.as_bytes()));
}

#[test]
fn stored_key_is_trimmed_and_decoded() {
    let keypair = KeyPair::from_seed([1u8; 32]);
    let stored = format!("  {}\n", keypair.secret_base64());
    let loaded = KeyPair::load_from_text(&stored).ok().unwrap();
    assert_eq!(loaded.public_key_bytes(), keypair.public_key_bytes());
    assert_eq!(keypair.secret_base64(), STANDARD.encode([1u8; 32]));
    assert_eq!(keypair.secret_base64().len(), 44);
}

#[test]
fn stored_key_of_wrong_length_is_refused() {
    let short = STANDARD.encode([1u8; 31]);
    assert!(matches!(KeyPair::load_from_text(&short), Err(KeyPairError::InvalidKeyLength(31))));
    let long = STANDARD.encode([1u8; 33]);
    assert!(matches!(KeyPair::load_from_text(&long), Err(KeyPairError::InvalidKeyLength(33))));
    let empty = "";
    assert!(matches!(KeyPair::load_from_text(empty), Err(KeyPairError::InvalidKeyLength(0))));
}

#[test]
fn stored_key_that_is_no_base64_is_refused() {
    assert!(matches!(
        KeyPair::load_from_text("not base64 at all!"),
        Err(KeyPairError::Base64Decode(_))
    ));
}

#[test]
fn load_or_create_loads_what_is_stored_and_creates_otherwise() {
    let keypair = KeyPair::from_seed([9u8; 32]);
    let stored = keypair.secret_base64();
    let (loaded, fresh) = KeyPair::load_or_create(Some(&stored)).ok().unwrap();
    assert!(!fresh);
    assert_eq!(loaded.public_key_bytes(), keypair.public_key_bytes());
    let (created, fresh) = KeyPair::load_or_create(None).ok().unwrap();
    assert!(fresh);
    assert_eq!(created.public_key_base64().len(), 44);
    assert!(matches!(
        KeyPair::load_or_create(Some("AAAA")),
        Err(KeyPairError::InvalidKeyLength(3))
    ));
}

#[test]
fn two_generated_keys_differ() {
    let a = KeyPair::generate();
    let b = KeyPair::generate();
    assert_ne!(a.public_key_bytes(), b.public_key_bytes());
}

#[test]
fn verify_base64_refuses_bad_signatures() {
    let keypair = KeyPair::from_seed([3u8; 32]);
    let good = keypair.sign_base64(b"message");
    assert!(keypair.verify_base64(b"message", &good));
    assert!(!keypair.verify_base64(b"other", &good));
    assert!(!keypair.verify_base64(b"message", "????"));
    assert!(!keypair.verify_base64(b"message", &STANDARD.encode([0u8; 63])));
    let other = KeyPair::from_seed([4u8; 32]);
    assert!(!other.verify_base64(b"message", &good));
}

#[test]
fn the_verifying_key_is_the_public_key_of_the_pair() {
    let keypair = KeyPair::from_seed([5u8; 32]);
    assert_eq!(keypair.verifying_key().to_bytes(), keypair.public_key_bytes());
    assert_eq!(keypair.verifying_key(), KeyPair::from_seed([5u8; 32]).verifying_key());
    assert_ne!(keypair.verifying_key(), KeyPair::from_seed([6u8; 32]).verifying_key());
    let signature = keypair.sign(b"message");
    assert!(keypair.verifying_key().verify(b"message", &Signature::from_bytes(&signature)).is_ok());
    assert!(keypair.verifying_key().verify(b"other", &Signature::from_bytes(&signature)).is_err());
}

#[test]
fn base64_texts_decode_to_what_they_stand_for() {
    let keypair = KeyPair::generate();
    let message = b"Hello, World!";
    let text = keypair.sign_base64(message);
    assert_eq!(text.len(), 88);
    assert_eq!(STANDARD.decode(&text).unwrap(), keypair.sign(message).to_vec());
    assert_eq!(
        STANDARD.decode(keypair.public_key_base64()).unwrap(),
        keypair.public_key_bytes().to_vec()
    );
    let seeded = KeyPair::from_seed([8u8; 32]);
    assert_eq!(STANDARD.decode(seeded.secret_base64()).unwrap(), vec![8u8; 32]);
    let payload = register_payload(seeded.public_key_base64());
    let canonical = payload.canonicalize().to_json_text();
    assert_eq!(
        STANDARD.decode(seeded.sign_message(&payload)).unwrap(),
        seeded.sign(canonical.as_bytes()).to_vec()
    );
}
