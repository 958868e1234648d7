//! The outside cryptography the library rests on: Argon2id key stretching,
//! the ChaCha20-Poly1305 AEAD and the operating system's random source.
//! Each function here is trusted; its contract restates what the crate it
//! calls documents or its source shows.

use vstd::prelude::*;
use argon2::password_hash::{PasswordHasher, SaltString};
use argon2::Argon2;
use chacha20poly1305::aead::{Aead, KeyInit, OsRng};
use chacha20poly1305::{ChaCha20Poly1305, Nonce};
use rand::RngCore;

verus! {

/// The 32-byte Argon2id digest that `Argon2::default()` (Argon2id, version
/// 0x13, m = 19456 KiB, t = 2, p = 1, no secret) computes from a password and
/// a salt.
pub uninterp spec fn argon2id_hash(password: Seq<u8>, salt: Seq<u8>) -> Seq<u8>;

/// The ciphertext followed by the 16-byte Poly1305 tag that ChaCha20-Poly1305
/// produces for `plaintext` under `key` and `nonce`, with no associated data.
pub uninterp spec fn chacha20poly1305_seal(key: Seq<u8>, nonce: Seq<u8>, plaintext: Seq<u8>) -> Seq<u8>;

/// What ChaCha20-Poly1305 decryption of `ciphertext` (tag included) under
/// `key` and `nonce` gives, with no associated data: the plaintext, or `None`
/// where the tag does not authenticate or the input is out of range.
pub uninterp spec fn chacha20poly1305_open(key: Seq<u8>, nonce: Seq<u8>, ciphertext: Seq<u8>) -> Option<Seq<u8>>;

/// ChaCha20 has keystream for a message of `len` bytes. Its block counter is
/// a `u32`; the first block keys Poly1305, so `u32::MAX - 1` blocks of 64
/// bytes remain for the message.
pub open spec fn within_chacha_limit(len: nat) -> bool {
    len <= 64 * 0xffff_fffe
}

/// ChaCha20-Poly1305 turns down a message of `len` bytes with an error before
/// any work: it has `u32::MAX` or more whole 64-byte blocks.
pub open spec fn refused_by_chacha(len: nat) -> bool {
    len / 64 >= 0xffff_ffff
}

/// A message of `len` bytes passes the length check of ChaCha20-Poly1305 but
/// needs more keystream than the counter leaves; applying the keystream to it
/// panics.
pub open spec fn overruns_chacha_keystream(len: nat) -> bool {
    !within_chacha_limit(len) && !refused_by_chacha(len)
}

/// The text of the error that hashing a password of `password_len` bytes
/// with a salt of `salt_len` bytes (at least 3) gives: the B64 form of the
/// salt is checked first, then Argon2 checks the password, then the salt.
pub open spec fn argon2_error_text(password_len: nat, salt_len: nat) -> Seq<char> {
    if salt_len > 48 {
        "invalid Base64 length"@
    } else if password_len > 0xffff_ffff {
        "invalid password"@
    } else {
        "salt invalid: value to short"@
    }
}

/// Runs `PasswordHasher::hash_password` of `Argon2::default()` on `password`
/// and `salt`, the salt first turned into the B64 form that call takes by
/// `SaltString::encode_b64`, and hands out the `hash` field's bytes.
/// Trusted: that the B64 form fails exactly for salts longer than 48 bytes
/// (its 64-character buffer), that Argon2 refuses decoded salts shorter than
/// 8 bytes and passwords longer than `0xFFFF_FFFF` bytes, that on success the
/// hash is present and 32 bytes long (`Params::DEFAULT_OUTPUT_LEN`) and is
/// `argon2id_hash` of the inputs. Salts shorter than 3 bytes encode to fewer
/// than 4 characters, which `SaltString::as_salt` rejects with a panic; they
/// are excluded. The error's `Display` text is `argon2_error_text`: the
/// `base64ct` length error ("invalid Base64 length"), `Error::Password`
/// ("invalid password") or `Error::SaltInvalid(TooShort)` ("salt invalid:
/// value to short"), as password-hash and argon2 map and print them.
#[verifier::external_body]
pub(crate) fn argon2_hash_password(password: &[u8], salt: &[u8]) -> (r: Result<Option<Vec<u8>>, String>)
    requires
        salt.len() >= 3,
    ensures
        (r is Ok) <==> (8 <= salt.len() <= 48 && password.len() <= 0xffff_ffff),
        r matches Ok(h) ==> (h matches Some(bytes) && bytes@ == argon2id_hash(password@, salt@)
            && bytes.len() == 32),
        r matches Err(m) ==> m@ == argon2_error_text(password@.len(), salt@.len()),
{
    let salt_string = SaltString::encode_b64(salt).map_err(|e| e.to_string())?;
    Argon2::default()
        .hash_password(password, &salt_string)
        .map(|h| h.hash.map(|out| out.as_bytes().to_vec()))
        .map_err(|e| e.to_string())
}

/// Calls `Aead::encrypt` of `ChaCha20Poly1305` keyed with `key`, on `nonce`
/// and `plaintext`.
/// Trusted: it fails exactly when the plaintext has `u32::MAX` or more
/// 64-byte blocks, with the error text "aead::Error"; plaintexts a little
/// shorter than that, which overrun the keystream, make `apply_keystream`
/// panic and are excluded; on success the result is
/// `chacha20poly1305_seal` of the inputs, 16 bytes (the tag) longer than the
/// plaintext, and decrypting it with the same key and nonce gives the
/// plaintext back.
#[verifier::external_body]
pub(crate) fn chacha20poly1305_encrypt(key: &[u8; 32], nonce: &[u8; 12], plaintext: &[u8]) -> (r: Result<Vec<u8>, String>)
    requires
        !overruns_chacha_keystream(plaintext@.len()),
    ensures
        (r is Ok) <==> within_chacha_limit(plaintext@.len()),
        r matches Ok(c) ==> c@ == chacha20poly1305_seal(key@, nonce@, plaintext@),
        r matches Ok(c) ==> c@.len() == plaintext@.len() + 16,
        r matches Ok(c) ==> chacha20poly1305_open(key@, nonce@, c@) == Some(plaintext@),
        r matches Err(m) ==> m@ == "aead::Error"@,
{
    let cipher = ChaCha20Poly1305::new(key.into());
    cipher.encrypt(Nonce::from_slice(nonce), plaintext).map_err(|e| e.to_string())
}

/// Calls `Aead::decrypt` of `ChaCha20Poly1305` keyed with `key`, on `nonce`
/// and `ciphertext`.
/// Trusted: the outcome is `chacha20poly1305_open` of the inputs, a failure
/// carries the text "aead::Error", inputs shorter than the 16-byte tag fail,
/// and a plaintext is the input without its 16-byte tag, so 16 bytes shorter.
/// `Nonce::from_slice` panics unless the nonce has 12 bytes, which is
/// required. An authentic input whose body (all but the tag) overruns the
/// keystream makes `apply_keystream` panic; bodies of those lengths are
/// excluded.
#[verifier::external_body]
pub(crate) fn chacha20poly1305_decrypt(key: &[u8; 32], nonce: &[u8], ciphertext: &[u8]) -> (r: Result<Vec<u8>, String>)
    requires
        nonce@.len() == 12,
        ciphertext@.len() >= 16 ==> !overruns_chacha_keystream((ciphertext@.len() - 16) as nat),
    ensures
        (r is Ok) <==> (chacha20poly1305_open(key@, nonce@, ciphertext@) is Some),
        r matches Ok(v) ==> chacha20poly1305_open(key@, nonce@, ciphertext@) == Some(v@),
        r matches Ok(v) ==> v@.len() + 16 == ciphertext@.len(),
        r matches Err(m) ==> m@ == "aead::Error"@,
        ciphertext@.len() < 16 ==> r is Err,
{
    let cipher = ChaCha20Poly1305::new(key.into());
    cipher.decrypt(Nonce::from_slice(nonce), ciphertext).map_err(|e| e.to_string())
}

/// Calls `RngCore::fill_bytes` of the operating system's generator `OsRng`
/// on `buf`. What it writes is random and nothing is stated of it; the call
/// panics where the operating system offers no randomness, which no argument
/// can rule out.
#[verifier::external_body]
pub(crate) fn fill_random<const N: usize>(buf: &mut [u8; N]) {
    OsRng.fill_bytes(buf)
}

} // verus!
