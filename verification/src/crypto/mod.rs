//! Key derivation from a password and authenticated encryption of byte buffers.

pub mod primitives;

use vstd::prelude::*;
use vstd::string::StringSliceAdditionalSpecFns;
use crate::error::ShieldSyncError;
use self::primitives::{
    argon2_error_text, argon2_hash_password, argon2id_hash, chacha20poly1305_decrypt, chacha20poly1305_encrypt,
    chacha20poly1305_open, chacha20poly1305_seal, fill_random, overruns_chacha_keystream, within_chacha_limit,
};

verus! {

/// Length in bytes of a master key.
pub const KEY_SIZE: usize = 32;

/// Length in bytes of the nonce that starts every encrypted buffer.
pub const NONCE_LEN: usize = 12;

/// Length in bytes of the authentication tag that ends every encrypted buffer.
pub const TAG_LEN: usize = 16;

/// Length in bytes of the salts that `MasterKey::generate_salt` makes.
pub const SALT_LEN: usize = 16;

/// Argon2id accepts the salt (8 to 48 bytes, the upper bound set by its B64
/// form) and the password (at most `0xFFFF_FFFF` bytes).
pub open spec fn derivation_succeeds(password: Seq<u8>, salt: Seq<u8>) -> bool {
    &&& 8 <= salt.len() <= 48
    &&& password.len() <= 0xffff_ffff
}

/// The master key for a password and a salt: the first `KEY_SIZE` bytes of
/// their Argon2id hash.
pub open spec fn derived_key(password: Seq<u8>, salt: Seq<u8>) -> Seq<u8> {
    argon2id_hash(password, salt).take(KEY_SIZE as int)
}

/// `sealed` is an encryption of `plaintext` under `key`: a nonce, then the
/// ChaCha20-Poly1305 sealing of the plaintext under that nonce, which opens
/// again to the plaintext.
pub open spec fn is_encryption_of(key: Seq<u8>, plaintext: Seq<u8>, sealed: Seq<u8>) -> bool {
    &&& within_chacha_limit(plaintext.len())
    &&& sealed.len() == NONCE_LEN + plaintext.len() + TAG_LEN
    &&& sealed.skip(NONCE_LEN as int) == chacha20poly1305_seal(
        key,
        sealed.take(NONCE_LEN as int),
        plaintext,
    )
    &&& chacha20poly1305_open(key, sealed.take(NONCE_LEN as int), sealed.skip(NONCE_LEN as int))
        == Some(plaintext)
}

/// Data of `len` bytes can be handed to decryption: its ciphertext, if it
/// has room for the tag, does not overrun the ChaCha20 keystream (where the
/// cipher panics on authentic data).
pub open spec fn decryptable_length(len: nat) -> bool {
    len >= NONCE_LEN + TAG_LEN ==> !overruns_chacha_keystream((len - NONCE_LEN - TAG_LEN) as nat)
}

/// What decrypting `data` under `key` gives: the plaintext, or the text of
/// the error. Data with no room for the tag fails authentication.
pub open spec fn decrypt_outcome(key: Seq<u8>, data: Seq<u8>) -> Result<Seq<u8>, Seq<char>> {
    if data.len() < NONCE_LEN {
        Err("Encrypted data too short"@)
    } else if data.len() < NONCE_LEN + TAG_LEN {
        Err("aead::Error"@)
    } else {
        match chacha20poly1305_open(key, data.take(NONCE_LEN as int), data.skip(NONCE_LEN as int)) {
            Some(p) => Ok(p),
            None => Err("aead::Error"@),
        }
    }
}

/// `r` is the executable form of `outcome`, errors being decryption errors.
pub open spec fn reports_decryption(
    r: Result<Vec<u8>, ShieldSyncError>,
    outcome: Result<Seq<u8>, Seq<char>>,
) -> bool {
    match r {
        Ok(p) => outcome == Ok::<Seq<u8>, Seq<char>>(p@),
        Err(e) => e matches ShieldSyncError::Decryption(m) && outcome == Err::<Seq<u8>, Seq<char>>(m@),
    }
}

/// The bytes of `first` followed by those of `second`.
pub(crate) fn concat_bytes(first: &[u8], second: &[u8]) -> (r: Vec<u8>)
    ensures
        r@ == first@ + second@,
{
    let mut result: Vec<u8> = Vec::new();
    let mut i: usize = 0;
    while i < first.len()
        invariant
            i <= first@.len(),
            result@ == first@.take(i as int),
        decreases first@.len() - i,
    {
        result.push(first[i]);
        i = i + 1;
        assert(result@ =~= first@.take(i as int));
    }
    let mut j: usize = 0;
    while j < second.len()
        invariant
            j <= second@.len(),
            i == first@.len(),
            result@ == first@.take(i as int) + second@.take(j as int),
        decreases second@.len() - j,
    {
        result.push(second[j]);
        j = j + 1;
        assert(result@ =~= first@.take(i as int) + second@.take(j as int));
    }
    assert(first@.take(i as int) =~= first@);
    assert(second@.take(j as int) =~= second@);
    result
}

/// A key derived from the user's password.
pub struct MasterKey {
    key: [u8; KEY_SIZE],
}

impl Clone for MasterKey {
    /// A copy holding the same key bytes.
    fn clone(&self) -> (r: Self)
        ensures
            r@ == self@,
    {
        MasterKey { key: self.key }
    }
}

impl View for MasterKey {
    type V = Seq<u8>;

    closed spec fn view(&self) -> Seq<u8> {
        self.key@
    }
}

impl MasterKey {
    /// Derive the master key from a password and a salt with Argon2id.
    pub fn derive_from_password(password: &str, salt: &[u8]) -> (r: Result<Self, ShieldSyncError>)
        requires
            salt@.len() >= 3,
        ensures
            (r is Ok) <==> derivation_succeeds(password.spec_bytes(), salt@),
            r matches Ok(k) ==> k@ == derived_key(password.spec_bytes(), salt@),
            r matches Ok(k) ==> k@ == argon2id_hash(password.spec_bytes(), salt@).take(KEY_SIZE as int),
            (8 <= salt@.len() <= 48 && password.spec_bytes().len() <= 0xffff_ffff) ==> r is Ok,
            r matches Err(e) ==> (e matches ShieldSyncError::Encryption(m) && m@ == argon2_error_text(
                password.spec_bytes().len(),
                salt@.len(),
            )),
    {
        match argon2_hash_password(password.as_bytes(), salt) {
            Err(msg) => Err(ShieldSyncError::Encryption(msg)),
            Ok(None) => Err(ShieldSyncError::Encryption("Failed to generate hash".to_owned())),
            Ok(Some(hash_bytes)) => {
                let mut key = [0u8; KEY_SIZE];
                let mut i: usize = 0;
                while i < KEY_SIZE
                    invariant
                        i <= KEY_SIZE,
                        hash_bytes@.len() == KEY_SIZE,
                        forall|j: int| 0 <= j < i ==> key@[j] == hash_bytes@[j],
                    decreases KEY_SIZE - i,
                {
                    key[i] = hash_bytes[i];
                    i = i + 1;
                }
                assert(key@ =~= hash_bytes@.take(KEY_SIZE as int));
                Ok(MasterKey { key })
            },
        }
    }

    /// A fresh random salt from the operating system's generator.
    pub fn generate_salt() -> (r: [u8; SALT_LEN])
        ensures
            r@.len() == SALT_LEN,
    {
        let mut salt = [0u8; SALT_LEN];
        fill_random(&mut salt);
        salt
    }

    /// The raw key bytes.
    pub fn as_bytes(&self) -> (r: &[u8; KEY_SIZE])
        ensures
            r@ == self@,
    {
        &self.key
    }
}

/// Encrypts and decrypts buffers under one master key.
pub struct CryptoEngine {
    master_key: MasterKey,
}

impl View for CryptoEngine {
    type V = Seq<u8>;

    closed spec fn view(&self) -> Seq<u8> {
        self.master_key@
    }
}

impl CryptoEngine {
    /// An engine that encrypts and decrypts under `master_key`.
    pub fn new(master_key: MasterKey) -> (r: Self)
        ensures
            r@ == master_key@,
    {
        CryptoEngine { master_key }
    }

    /// Encrypt `plaintext` with ChaCha20-Poly1305 under the given nonce; the
    /// result is the nonce followed by the ciphertext and its tag.
    /// Plaintexts whose length overruns the ChaCha20 keystream make the
    /// cipher panic and are excluded.
    pub fn encrypt_with_nonce(&self, nonce: &[u8; NONCE_LEN], plaintext: &[u8]) -> (r: Result<
        Vec<u8>,
        ShieldSyncError,
    >)
        requires
            !overruns_chacha_keystream(plaintext@.len()),
        ensures
            (r is Ok) <==> within_chacha_limit(plaintext@.len()),
            r matches Ok(c) ==> c@ == nonce@ + chacha20poly1305_seal(self@, nonce@, plaintext@),
            r matches Ok(c) ==> is_encryption_of(self@, plaintext@, c@),
            r matches Err(e) ==> (e matches ShieldSyncError::Encryption(m) && m@ == "aead::Error"@),
    {
        match chacha20poly1305_encrypt(self.master_key.as_bytes(), nonce, plaintext) {
            Err(msg) => Err(ShieldSyncError::Encryption(msg)),
            Ok(ciphertext) => {
                let result = concat_bytes(nonce.as_slice(), ciphertext.as_slice());
                assert(result@.take(NONCE_LEN as int) =~= nonce@);
                assert(result@.skip(NONCE_LEN as int) =~= ciphertext@);
                Ok(result)
            },
        }
    }

    /// Encrypt data using ChaCha20-Poly1305 under a fresh random nonce; the
    /// result is the nonce followed by the ciphertext and its tag.
    /// Plaintexts whose length overruns the ChaCha20 keystream make the
    /// cipher panic and are excluded.
    pub fn encrypt(&self, plaintext: &[u8]) -> (r: Result<Vec<u8>, ShieldSyncError>)
        requires
            !overruns_chacha_keystream(plaintext@.len()),
        ensures
            (r is Ok) <==> within_chacha_limit(plaintext@.len()),
            r matches Ok(c) ==> is_encryption_of(self@, plaintext@, c@),
            r matches Err(e) ==> (e matches ShieldSyncError::Encryption(m) && m@ == "aead::Error"@),
    {
        let mut nonce_bytes = [0u8; NONCE_LEN];
        fill_random(&mut nonce_bytes);
        self.encrypt_with_nonce(&nonce_bytes, plaintext)
    }

    /// Decrypt data made by `encrypt`: a nonce, then ciphertext and tag.
    /// Ciphertexts whose length overruns the ChaCha20 keystream make the
    /// cipher panic when they authenticate, and are excluded.
    pub fn decrypt(&self, encrypted_data: &[u8]) -> (r: Result<Vec<u8>, ShieldSyncError>)
        requires
            decryptable_length(encrypted_data@.len()),
        ensures
            reports_decryption(r, decrypt_outcome(self@, encrypted_data@)),
            r matches Ok(p) ==> p@.len() + NONCE_LEN + TAG_LEN == encrypted_data@.len(),
            r matches Ok(p) ==> chacha20poly1305_open(
                self@,
                encrypted_data@.take(NONCE_LEN as int),
                encrypted_data@.skip(NONCE_LEN as int),
            ) == Some(p@),
            chacha20poly1305_open(
                self@,
                encrypted_data@.take(NONCE_LEN as int),
                encrypted_data@.skip(NONCE_LEN as int),
            ) is None ==> (r matches Err(e) && e is Decryption),
            encrypted_data@.len() >= NONCE_LEN ==> (chacha20poly1305_open(
                self@,
                encrypted_data@.take(NONCE_LEN as int),
                encrypted_data@.skip(NONCE_LEN as int),
            ) matches Some(q) ==> (r matches Ok(p) && p@ == q)),
            r matches Err(e) ==> e is Decryption,
    {
        if encrypted_data.len() < NONCE_LEN {
            return Err(ShieldSyncError::Decryption("Encrypted data too short".to_owned()));
        }
        let (nonce_bytes, ciphertext) = encrypted_data.split_at(NONCE_LEN);
        match chacha20poly1305_decrypt(self.master_key.as_bytes(), nonce_bytes, ciphertext) {
            Ok(plaintext) => Ok(plaintext),
            Err(msg) => Err(ShieldSyncError::Decryption(msg)),
        }
    }
}

/// Decrypting what `encrypt` or `encrypt_with_nonce` produced, under the same
/// key, gives back the plaintext it was made from.
pub proof fn lemma_decrypt_inverts_encrypt(key: Seq<u8>, plaintext: Seq<u8>, sealed: Seq<u8>)
    requires
        is_encryption_of(key, plaintext, sealed),
    ensures
        decryptable_length(sealed.len()),
        decrypt_outcome(key, sealed) == Ok::<Seq<u8>, Seq<char>>(plaintext),
{
}

/// The key for a password and a salt is the first `KEY_SIZE` bytes of the
/// Argon2id hash of the password's bytes, exactly as given, with that salt.
pub proof fn lemma_derived_key_is_argon2id_prefix(password: Seq<u8>, salt: Seq<u8>)
    ensures
        derived_key(password, salt) == argon2id_hash(password, salt).take(KEY_SIZE as int),
{
}

/// Decryption succeeds only where the ciphertext after the nonce
/// authenticates under the key and that nonce, and then gives exactly what
/// it opens to; where it does not authenticate, decryption fails.
pub proof fn lemma_decrypt_outcome_is_authenticated_open(key: Seq<u8>, data: Seq<u8>)
    ensures
        decrypt_outcome(key, data) matches Ok(p) ==> (data.len() >= NONCE_LEN + TAG_LEN
            && chacha20poly1305_open(key, data.take(NONCE_LEN as int), data.skip(NONCE_LEN as int))
            == Some(p)),
        chacha20poly1305_open(key, data.take(NONCE_LEN as int), data.skip(NONCE_LEN as int)) is None
            ==> decrypt_outcome(key, data) is Err,
        data.len() >= NONCE_LEN + TAG_LEN ==> (chacha20poly1305_open(
            key,
            data.take(NONCE_LEN as int),
            data.skip(NONCE_LEN as int),
        ) matches Some(p) ==> decrypt_outcome(key, data) == Ok::<Seq<u8>, Seq<char>>(p)),
{
}

/// A result that reports a decryption outcome carries exactly that outcome:
/// all of the plaintext on success, a decryption error with the same text on
/// failure.
pub proof fn lemma_reported_decryption_is_exact(
    r: Result<Vec<u8>, ShieldSyncError>,
    outcome: Result<Seq<u8>, Seq<char>>,
)
    requires
        reports_decryption(r, outcome),
    ensures
        outcome matches Ok(q) ==> (r matches Ok(p) && p@ == q && p@.len() == q.len()),
        outcome matches Err(m) ==> (r matches Err(e) && e matches ShieldSyncError::Decryption(n)
            && n@ == m),
        r matches Ok(p) ==> outcome == Ok::<Seq<u8>, Seq<char>>(p@),
{
}

/// Deriving a key from the same password and salt always gives the same key.
pub proof fn lemma_derivation_deterministic(
    password1: Seq<u8>,
    salt1: Seq<u8>,
    password2: Seq<u8>,
    salt2: Seq<u8>,
)
    requires
        password1 == password2,
        salt1 == salt2,
    ensures
        derived_key(password1, salt1) == derived_key(password2, salt2),
{
}

} // verus!
