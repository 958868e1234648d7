# shield_sync

Encrypted file synchronization. The library under `src/` is verified with
Verus:

- `crypto` derives a master key from a password (Argon2id) and encrypts and
  decrypts buffers with ChaCha20-Poly1305; `crypto::primitives` holds the
  trusted calls into those crates and into the OS random source.
- `vault` is the encrypted file format: salt, nonce, ciphertext, tag.
- `database` holds the sync status of a file and its text form.
- `watcher` and `cli` hold the plain data the watcher and the command line
  decide on.
- `error` is the library's error type.

`app/` is the command line, the file and database I/O and the file watcher
loop; `tests/` exercises the library.
