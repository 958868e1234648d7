use shield_sync::crypto::{CryptoEngine, MasterKey};
use shield_sync::error::ShieldSyncError;

const KNOWN_SALT: &[u8] = b"sixteen byte slt";

const KNOWN_KEY: [u8; 32] = [
    136, 84, 96, 72, 241, 0, 179, 159, 154, 204, 192, 231, 3, 19, 136, 196, 101, 236, 53, 30, 226,
    83, 33, 249, 36, 14, 24, 255, 18, 141, 143, 76,
];

const KNOWN_NONCE: [u8; 12] = [100, 101, 102, 103, 104, 105, 106, 107, 108, 109, 110, 111];

const KNOWN_SEALED: [u8; 35] = [
    1, 129, 196, 207, 0, 22, 133, 81, 108, 28, 158, 162, 185, 209, 204, 80, 212, 192, 38, 226, 251,
    240, 117, 185, 194, 195, 13, 90, 164, 119, 24, 144, 99, 190, 9,
];

fn known_engine() -> CryptoEngine {
    CryptoEngine::new(MasterKey::derive_from_password("test_password_123", KNOWN_SALT).unwrap())
}

#[test]
fn test_key_derivation() {
    let password = "test_password_123";
    let salt = MasterKey::generate_salt();

    let key1 = MasterKey::derive_from_password(password, &salt).unwrap();
    let key2 = MasterKey::derive_from_password(password, &salt).unwrap();

    // Same password + salt should produce same key
    assert_eq!(key1.as_bytes(), key2.as_bytes());
}

#[test]
fn test_encryption_decryption() {
    let password = "secure_password";
    let salt = MasterKey::generate_salt();
    let master_key = MasterKey::derive_from_password(&password, &salt).unwrap();

    let engine = CryptoEngine::new(master_key);
    let plaintext = b"Hello, Shield-Sync!";

    let encrypted = engine.encrypt(plaintext).unwrap();
    let decrypted = engine.decrypt(&encrypted).unwrap();

    assert_eq!(plaintext, decrypted.as_slice());
}

#[test]
fn derived_key_matches_argon2id_known_answer() {
    let key = MasterKey::derive_from_password("test_password_123", KNOWN_SALT).unwrap();
    assert_eq!(key.as_bytes(), &KNOWN_KEY);
}

#[test]
fn different_salts_or_passwords_give_different_keys() {
    let a = MasterKey::derive_from_password("test_password_123", KNOWN_SALT).unwrap();
    let b = MasterKey::derive_from_password("test_password_124", KNOWN_SALT).unwrap();
    let c = MasterKey::derive_from_password("test_password_123", b"sixteen byte slu").unwrap();
    assert_ne!(a.as_bytes(), b.as_bytes());
    assert_ne!(a.as_bytes(), c.as_bytes());
}

#[test]
fn derivation_accepts_salts_from_8_to_48_bytes() {
    assert!(MasterKey::derive_from_password("pw", &[1u8; 8]).is_ok());
    assert!(MasterKey::derive_from_password("pw", &[1u8; 48]).is_ok());
    assert!(MasterKey::derive_from_password("", &[1u8; 16]).is_ok());
}

#[test]
fn derivation_rejects_short_salt() {
    for len in 3..8 {
        let salt = vec![5u8; len];
        match MasterKey::derive_from_password("pw", &salt) {
            Err(ShieldSyncError::Encryption(_)) => {}
            other => panic!("salt of {} bytes gave {:?}", len, other.map(|k| *k.as_bytes())),
        }
    }
}

#[test]
fn derivation_rejects_long_salt() {
    match MasterKey::derive_from_password("pw", &[9u8; 49]) {
        Err(ShieldSyncError::Encryption(_)) => {}
        other => panic!("unexpected {:?}", other.map(|k| *k.as_bytes())),
    }
}

#[test]
fn generated_salts_are_fresh() {
    let a = MasterKey::generate_salt();
    let b = MasterKey::generate_salt();
    assert_eq!(a.len(), 16);
    assert_ne!(a, b);
}

#[test]
fn encrypt_with_nonce_known_answer() {
    let engine = known_engine();
    let sealed = engine.encrypt_with_nonce(&KNOWN_NONCE, b"Hello, Shield-Sync!").unwrap();
    assert_eq!(&sealed[..12], &KNOWN_NONCE);
    assert_eq!(&sealed[12..], &KNOWN_SEALED);
}

#[test]
fn decrypt_known_answer() {
    let engine = known_engine();
    let mut data = KNOWN_NONCE.to_vec();
    data.extend_from_slice(&KNOWN_SEALED);
    assert_eq!(engine.decrypt(&data).unwrap(), b"Hello, Shield-Sync!".to_vec());
}

#[test]
fn encrypt_layout_and_fresh_nonces() {
    let engine = known_engine();
    let plaintext = b"some bytes to protect";
    let a = engine.encrypt(plaintext).unwrap();
    let b = engine.encrypt(plaintext).unwrap();
    assert_eq!(a.len(), 12 + plaintext.len() + 16);
    assert_ne!(&a[..12], &b[..12]);
    assert_ne!(&a[12..12 + plaintext.len()], &plaintext[..]);
}

#[test]
fn encrypt_empty_plaintext_round_trips() {
    let engine = known_engine();
    let sealed = engine.encrypt(b"").unwrap();
    assert_eq!(sealed.len(), 28);
    assert_eq!(engine.decrypt(&sealed).unwrap(), Vec::<u8>::new());
}

#[test]
fn decrypt_rejects_short_input() {
    let engine = known_engine();
    match engine.decrypt(&[0u8; 11]) {
        Err(ShieldSyncError::Decryption(m)) => assert_eq!(m, "Encrypted data too short"),
        other => panic!("unexpected {:?}", other),
    }
}

#[test]
fn decrypt_rejects_missing_tag() {
    let engine = known_engine();
    match engine.decrypt(&[0u8; 20]) {
        Err(ShieldSyncError::Decryption(m)) => assert_eq!(m, "aead::Error"),
        other => panic!("unexpected {:?}", other),
    }
}

#[test]
fn decrypt_rejects_tampered_ciphertext() {
    let engine = known_engine();
    let mut sealed = engine.encrypt(b"integrity matters").unwrap();
    sealed[15] ^= 1;
    match engine.decrypt(&sealed) {
        Err(ShieldSyncError::Decryption(m)) => assert_eq!(m, "aead::Error"),
        other => panic!("unexpected {:?}", other),
    }
}

#[test]
fn decrypt_with_other_key_fails() {
    let engine = known_engine();
    let other = CryptoEngine::new(MasterKey::derive_from_password("other", KNOWN_SALT).unwrap());
    let sealed = engine.encrypt(b"for one key only").unwrap();
    assert!(matches!(other.decrypt(&sealed), Err(ShieldSyncError::Decryption(_))));
}

#[test]
fn decrypt_rejects_input_without_room_for_tag() {
    let engine = known_engine();
    for len in 12..28 {
        match engine.decrypt(&vec![0u8; len]) {
            Err(ShieldSyncError::Decryption(m)) => assert_eq!(m, "aead::Error"),
            other => panic!("{} bytes gave {:?}", len, other),
        }
    }
}

#[test]
fn decrypted_plaintext_is_28_bytes_shorter() {
    let engine = known_engine();
    let sealed = engine.encrypt(b"twelve bytes").unwrap();
    assert_eq!(engine.decrypt(&sealed).unwrap().len() + 28, sealed.len());
}

#[test]
fn cloned_key_keeps_its_bytes() {
    let key = MasterKey::derive_from_password("test_password_123", KNOWN_SALT).unwrap();
    let copy = key.clone();
    assert_eq!(copy.as_bytes(), key.as_bytes());
    assert_eq!(copy.as_bytes(), &KNOWN_KEY);
}

#[test]
fn derivation_error_texts() {
    match MasterKey::derive_from_password("pw", &[9u8; 49]) {
        Err(ShieldSyncError::Encryption(m)) => assert_eq!(m, "invalid Base64 length"),
        other => panic!("unexpected {:?}", other.map(|k| *k.as_bytes())),
    }
    match MasterKey::derive_from_password("pw", &[9u8; 5]) {
        Err(ShieldSyncError::Encryption(m)) => assert_eq!(m, "salt invalid: value to short"),
        other => panic!("unexpected {:?}", other.map(|k| *k.as_bytes())),
    }
}
