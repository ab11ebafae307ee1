//! Envelope encryption for single files.
//!
//! A long-lived master key wraps a fresh file key, and the file key seals the
//! file's content. Both steps use AES-256-GCM under one nonce, which is
//! stored in a small binary header in front of the ciphertext.
//!
//! - [`header`]: the binary header and its codec.
//! - [`crypto`]: encrypting and decrypting whole files held in memory.
//! - [`keyring_store`]: the master key and the store that keeps it.
//! - [`error`]: the errors of all of these.
//! - [`cipher`], [`encoding`], [`secret`]: what the library takes from
//!   outside: AES-256-GCM, base64, random bytes and the wiping of memory.
//!
//! The library reads and writes no files and talks to no secret store. It
//! takes bytes and gives bytes; opening files and reaching the operating
//! system's secret store is left to the program around it.

pub mod cipher;
pub mod crypto;
pub mod encoding;
pub mod error;
pub mod header;
pub mod keyring_store;
pub mod secret;
