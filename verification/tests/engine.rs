use base64::engine::general_purpose;
use base64::Engine;
use chacha20poly1305::aead::Aead;
use chacha20poly1305::{ChaCha20Poly1305, Key, KeyInit, Nonce};
use hkdf::Hkdf;
use sha2::Sha256;
use x25519_dalek::{PublicKey, StaticSecret};

use ecies::{decrypt, encrypt, encrypt_with, Error, KeyPair};

#[test]
fn test_encrypt_decrypt() {
    let keypair = KeyPair::generate().unwrap();
    let text = "Hello, World!";
    let frame = encrypt(&keypair.public_key_bytes(), &text.as_bytes().to_vec()).unwrap();
    let encrypted = general_purpose::STANDARD.encode(&frame);
    println!("{encrypted}");
    let decrypted = decrypt(&keypair, &frame).unwrap();
    assert_eq!(String::from_utf8(decrypted).unwrap(), text);
}

#[test]
fn round_trip_empty_message() {
    let keypair = KeyPair::generate().unwrap();
    let message: Vec<u8> = Vec::new();
    let frame = encrypt(&keypair.public_key_bytes(), &message).unwrap();
    assert_eq!(frame.len(), 60);
    assert_eq!(decrypt(&keypair, &frame).unwrap(), message);
}

#[test]
fn concrete_scenario_hello_world() {
    let keypair = KeyPair::generate().unwrap();
    let frame = encrypt(
        &keypair.public_key_bytes(),
        &"Hello, World!".as_bytes().to_vec(),
    )
    .unwrap();
    assert_eq!(frame.len(), 44 + 13 + 16);
    let decrypted = decrypt(&keypair, &frame).unwrap();
    assert_eq!(String::from_utf8(decrypted).unwrap(), "Hello, World!");
}

#[test]
fn tamper_detection_every_bit_of_sealed_region() {
    let keypair = KeyPair::generate().unwrap();
    let frame = encrypt(
        &keypair.public_key_bytes(),
        &"Hello, World!".as_bytes().to_vec(),
    )
    .unwrap();
    for byte_index in 44..frame.len() {
        for bit in 0..8u8 {
            let mut tampered = frame.clone();
            tampered[byte_index] ^= 1 << bit;
            assert_eq!(decrypt(&keypair, &tampered).unwrap_err(), Error::DecryptFailed);
        }
    }
}

#[test]
fn ephemeral_key_uniqueness() {
    let keypair = KeyPair::generate().unwrap();
    let message = "same plaintext".as_bytes().to_vec();
    let first = encrypt(&keypair.public_key_bytes(), &message).unwrap();
    let second = encrypt(&keypair.public_key_bytes(), &message).unwrap();
    assert_ne!(first[..32], second[..32]);
    assert_ne!(first, second);
}

#[test]
fn minimum_length_rejection() {
    let keypair = KeyPair::generate().unwrap();
    for len in [0usize, 1, 31, 32, 43, 44] {
        let frame = vec![0u8; len];
        assert_eq!(
            decrypt(&keypair, &frame).unwrap_err(),
            Error::InvalidMessageLength
        );
    }
    let just_over = vec![0u8; 45];
    assert_eq!(decrypt(&keypair, &just_over).unwrap_err(), Error::DecryptFailed);
}

#[test]
fn cross_recipient_isolation() {
    let recipient_a = KeyPair::generate().unwrap();
    let recipient_b = KeyPair::generate().unwrap();
    let frame = encrypt(
        &recipient_a.public_key_bytes(),
        &"for A only".as_bytes().to_vec(),
    )
    .unwrap();
    assert_eq!(decrypt(&recipient_b, &frame).unwrap_err(), Error::DecryptFailed);
    assert_eq!(
        String::from_utf8(decrypt(&recipient_a, &frame).unwrap()).unwrap(),
        "for A only"
    );
}

#[test]
fn encrypt_rejects_bad_public_key_length() {
    let message = "hi".as_bytes().to_vec();
    assert_eq!(
        encrypt(&vec![1u8; 31], &message).unwrap_err(),
        Error::EncryptFailed
    );
    assert_eq!(
        encrypt(&vec![1u8; 33], &message).unwrap_err(),
        Error::EncryptFailed
    );
}

#[test]
fn encrypt_rejects_degenerate_public_key() {
    let message = "hi".as_bytes().to_vec();
    assert_eq!(
        encrypt(&vec![0u8; 32], &message).unwrap_err(),
        Error::EncryptFailed
    );
}

#[test]
fn deterministic_core_matches_the_primitives() {
    let keypair = KeyPair::generate().unwrap();
    let recipient_pk = keypair.public_key_bytes();
    let ephemeral_private = vec![7u8; 32];
    let nonce = vec![9u8; 12];
    let message = "attack at dawn".as_bytes().to_vec();
    let frame = encrypt_with(&ephemeral_private, &nonce, &recipient_pk, &message).unwrap();

    let mut esk_arr = [0u8; 32];
    esk_arr.copy_from_slice(&ephemeral_private);
    let mut pk_arr = [0u8; 32];
    pk_arr.copy_from_slice(&recipient_pk);
    let secret = StaticSecret::from(esk_arr);
    let shared = secret.diffie_hellman(&PublicKey::from(pk_arr));
    let hk = Hkdf::<Sha256>::new(None, shared.as_bytes());
    let mut key = [0u8; 32];
    hk.expand(b"encryption", &mut key).unwrap();
    let cipher = ChaCha20Poly1305::new(Key::from_slice(&key));
    let sealed = cipher
        .encrypt(Nonce::from_slice(&nonce), message.as_slice())
        .unwrap();

    let mut expected = PublicKey::from(&secret).to_bytes().to_vec();
    expected.extend_from_slice(&nonce);
    expected.extend_from_slice(&sealed);
    assert_eq!(frame, expected);

    assert_eq!(decrypt(&keypair, &frame).unwrap(), message);
}

#[test]
fn deterministic_core_is_deterministic() {
    let keypair = KeyPair::generate().unwrap();
    let recipient_pk = keypair.public_key_bytes();
    let ephemeral_private = vec![42u8; 32];
    let nonce = vec![1u8; 12];
    let message = "twice".as_bytes().to_vec();
    let first = encrypt_with(&ephemeral_private, &nonce, &recipient_pk, &message).unwrap();
    let second = encrypt_with(&ephemeral_private, &nonce, &recipient_pk, &message).unwrap();
    assert_eq!(first, second);
}
