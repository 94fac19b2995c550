use base64::engine::general_purpose;
use base64::Engine;

use ecies::{decrypt, encrypt, Error, KeyPair};

#[test]
fn test_gen_keypair() {
    let key = KeyPair::generate();
    println!(
        "{}",
        general_purpose::STANDARD.encode(key.as_ref().unwrap().public_key_bytes())
    );
    println!(
        "{}",
        general_purpose::STANDARD.encode(key.as_ref().unwrap().private_key_bytes())
    );
}

#[test]
fn generated_public_key_has_curve_length() {
    let key = KeyPair::generate().unwrap();
    assert_eq!(key.public_key_bytes().len(), 32);
    assert_eq!(key.private_key_bytes().len(), 32);
    assert_ne!(key.public_key_bytes(), key.private_key_bytes());
}

#[test]
fn from_private_key_rebuilds_the_pair() {
    let original = KeyPair::generate().unwrap();
    let rebuilt = KeyPair::from_private_key(original.private_key_bytes()).unwrap();
    assert_eq!(rebuilt.public_key_bytes(), original.public_key_bytes());
    let frame = encrypt(&original.public_key_bytes(), &"moved key".as_bytes().to_vec()).unwrap();
    assert_eq!(
        String::from_utf8(decrypt(&rebuilt, &frame).unwrap()).unwrap(),
        "moved key"
    );
}

#[test]
fn from_private_key_rejects_bad_length() {
    assert!(matches!(
        KeyPair::from_private_key(vec![5u8; 31]),
        Err(Error::GenerateKeyFailed)
    ));
    assert!(matches!(
        KeyPair::from_private_key(vec![5u8; 33]),
        Err(Error::GenerateKeyFailed)
    ));
}
