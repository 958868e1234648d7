use vstd::prelude::*;

verus! {

/// Every failure the library reports.
#[derive(Debug, Clone)]
pub enum ShieldSyncError {
    /// Key derivation or encryption failed; the text says why.
    Encryption(String),
    /// Decryption failed; the text says why.
    Decryption(String),
    /// A file system operation failed.
    Io(String),
    /// The sync database failed.
    Database(String),
    /// Serialising or parsing metadata failed.
    Serialization(String),
    /// The key or password is wrong.
    InvalidKey,
    /// A file that was asked for does not exist.
    FileNotFound(String),
    /// Two replicas changed the same file.
    Conflict(String),
}

} // verus!
