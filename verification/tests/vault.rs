use shield_sync::crypto::{CryptoEngine, MasterKey};
use shield_sync::error::ShieldSyncError;
use shield_sync::vault::{open_vault_file, seal_vault_file};

#[test]
fn vault_file_round_trip() {
    let salt = MasterKey::generate_salt();
    let data = seal_vault_file("file_password", &salt, b"Secret file content").unwrap();
    assert_eq!(&data[..16], &salt);
    assert_eq!(data.len(), 16 + 12 + b"Secret file content".len() + 16);
    let opened = open_vault_file("file_password", &data).unwrap();
    assert_eq!(b"Secret file content", opened.as_slice());
}

#[test]
fn vault_file_body_is_an_engine_encryption() {
    let salt = [3u8; 16];
    let data = seal_vault_file("pw", &salt, b"contents").unwrap();
    let engine = CryptoEngine::new(MasterKey::derive_from_password("pw", &salt).unwrap());
    assert_eq!(engine.decrypt(&data[16..]).unwrap(), b"contents".to_vec());
}

#[test]
fn vault_file_wrong_password_fails() {
    let salt = MasterKey::generate_salt();
    let data = seal_vault_file("right", &salt, b"hidden").unwrap();
    match open_vault_file("wrong", &data) {
        Err(ShieldSyncError::Decryption(m)) => assert_eq!(m, "aead::Error"),
        other => panic!("unexpected {:?}", other),
    }
}

#[test]
fn vault_file_with_only_a_salt_is_too_short() {
    match open_vault_file("pw", &[1u8; 20]) {
        Err(ShieldSyncError::Decryption(m)) => assert_eq!(m, "Encrypted data too short"),
        other => panic!("unexpected {:?}", other),
    }
}
