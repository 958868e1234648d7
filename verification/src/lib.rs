//! End-to-end encrypted file synchronization: key derivation, authenticated
//! encryption, the encrypted file format, sync bookkeeping and file watching.

pub mod error;
pub mod crypto;
pub mod vault;
pub mod database;
pub mod watcher;
pub mod cli;
