//! The format of an encrypted file on disk: the salt its key was derived
//! with, then the encrypted contents (nonce, ciphertext, tag).

use vstd::prelude::*;
use vstd::string::StringSliceAdditionalSpecFns;
use crate::crypto::{
    concat_bytes, decrypt_outcome, KEY_SIZE, NONCE_LEN, TAG_LEN, decryptable_length, derivation_succeeds, derived_key, is_encryption_of,
    reports_decryption, CryptoEngine, MasterKey, SALT_LEN,
};
use crate::crypto::primitives::{argon2_error_text, argon2id_hash, chacha20poly1305_open, chacha20poly1305_seal, overruns_chacha_keystream, within_chacha_limit};
use crate::error::ShieldSyncError;

verus! {

/// `data` is an encrypted file of `plaintext` under `password`: it starts
/// with a salt that the password derives a key from, and the rest is an
/// encryption of the plaintext under that key.
pub open spec fn is_vault_file_of(password: Seq<u8>, plaintext: Seq<u8>, data: Seq<u8>) -> bool {
    &&& data.len() >= SALT_LEN
    &&& derivation_succeeds(password, data.take(SALT_LEN as int))
    &&& is_encryption_of(
        derived_key(password, data.take(SALT_LEN as int)),
        plaintext,
        data.skip(SALT_LEN as int),
    )
}

/// Encrypt the contents of a file under `password`: the key is derived from
/// the password and `salt`, and the result is the salt followed by the
/// encrypted contents. Contents whose length overruns the ChaCha20 keystream
/// make the cipher panic and are excluded.
pub fn seal_vault_file(password: &str, salt: &[u8; SALT_LEN], plaintext: &[u8]) -> (r: Result<
    Vec<u8>,
    ShieldSyncError,
>)
    requires
        !overruns_chacha_keystream(plaintext@.len()),
    ensures
        (r is Ok) <==> (password.spec_bytes().len() <= 0xffff_ffff && within_chacha_limit(
            plaintext@.len(),
        )),
        r matches Ok(data) ==> data@.take(SALT_LEN as int) == salt@,
        r matches Ok(data) ==> is_vault_file_of(password.spec_bytes(), plaintext@, data@),
        password.spec_bytes().len() > 0xffff_ffff ==> (r matches Err(e) && e matches ShieldSyncError::Encryption(m)
            && m@ == argon2_error_text(password.spec_bytes().len(), SALT_LEN as nat)),
        password.spec_bytes().len() <= 0xffff_ffff && !within_chacha_limit(plaintext@.len()) ==> (r matches Err(e)
            && e matches ShieldSyncError::Encryption(m) && m@ == "aead::Error"@),
        r matches Ok(data) ==> data@.skip(SALT_LEN as int).skip(NONCE_LEN as int)
            == chacha20poly1305_seal(
            argon2id_hash(password.spec_bytes(), salt@).take(KEY_SIZE as int),
            data@.skip(SALT_LEN as int).take(NONCE_LEN as int),
            plaintext@,
        ),
        r matches Ok(data) ==> chacha20poly1305_open(
            argon2id_hash(password.spec_bytes(), salt@).take(KEY_SIZE as int),
            data@.skip(SALT_LEN as int).take(NONCE_LEN as int),
            data@.skip(SALT_LEN as int).skip(NONCE_LEN as int),
        ) == Some(plaintext@),
{
    let master_key = MasterKey::derive_from_password(password, salt.as_slice())?;
    let engine = CryptoEngine::new(master_key);
    let encrypted = engine.encrypt(plaintext)?;
    let data = concat_bytes(salt.as_slice(), encrypted.as_slice());
    assert(data@.take(SALT_LEN as int) =~= salt@);
    assert(data@.skip(SALT_LEN as int) =~= encrypted@);
    Ok(data)
}

/// Decrypt an encrypted file under `password`: the first `SALT_LEN` bytes
/// are the salt to derive the key from, the rest is decrypted with it.
/// Callers reject files shorter than the salt. Encrypted contents whose
/// length overruns the ChaCha20 keystream make the cipher panic when they
/// authenticate, and are excluded.
pub fn open_vault_file(password: &str, data: &[u8]) -> (r: Result<Vec<u8>, ShieldSyncError>)
    requires
        data@.len() >= SALT_LEN,
        decryptable_length((data@.len() - SALT_LEN) as nat),
    ensures
        !derivation_succeeds(password.spec_bytes(), data@.take(SALT_LEN as int)) ==> (r matches Err(
            e,
        ) && e matches ShieldSyncError::Encryption(m) && m@ == argon2_error_text(
            password.spec_bytes().len(),
            SALT_LEN as nat,
        )),
        derivation_succeeds(password.spec_bytes(), data@.take(SALT_LEN as int)) ==> reports_decryption(
            r,
            decrypt_outcome(
                derived_key(password.spec_bytes(), data@.take(SALT_LEN as int)),
                data@.skip(SALT_LEN as int),
            ),
        ),
        r matches Ok(p) ==> p@.len() + SALT_LEN + NONCE_LEN + TAG_LEN == data@.len(),
        r matches Ok(p) ==> chacha20poly1305_open(
            argon2id_hash(password.spec_bytes(), data@.take(SALT_LEN as int)).take(KEY_SIZE as int),
            data@.skip(SALT_LEN as int).take(NONCE_LEN as int),
            data@.skip(SALT_LEN as int).skip(NONCE_LEN as int),
        ) == Some(p@),
        (password.spec_bytes().len() <= 0xffff_ffff && data@.len() >= SALT_LEN + NONCE_LEN)
            ==> (chacha20poly1305_open(
            argon2id_hash(password.spec_bytes(), data@.take(SALT_LEN as int)).take(KEY_SIZE as int),
            data@.skip(SALT_LEN as int).take(NONCE_LEN as int),
            data@.skip(SALT_LEN as int).skip(NONCE_LEN as int),
        ) matches Some(q) ==> (r matches Ok(p) && p@ == q)),
{
    let (salt, ciphertext) = data.split_at(SALT_LEN);
    let master_key = MasterKey::derive_from_password(password, salt)?;
    let engine = CryptoEngine::new(master_key);
    engine.decrypt(ciphertext)
}

/// Opening what `seal_vault_file` produced, with the same password, gives
/// back the contents it was made from.
pub proof fn lemma_open_inverts_seal(password: Seq<u8>, plaintext: Seq<u8>, data: Seq<u8>)
    requires
        is_vault_file_of(password, plaintext, data),
    ensures
        decryptable_length((data.len() - SALT_LEN) as nat),
        derivation_succeeds(password, data.take(SALT_LEN as int)),
        decrypt_outcome(derived_key(password, data.take(SALT_LEN as int)), data.skip(SALT_LEN as int))
            == Ok::<Seq<u8>, Seq<char>>(plaintext),
{
    crate::crypto::lemma_decrypt_inverts_encrypt(
        derived_key(password, data.take(SALT_LEN as int)),
        plaintext,
        data.skip(SALT_LEN as int),
    );
}

} // verus!
