//! The account-security core of a self-hosted secret-manager server:
//! how master-key derivation parameters change, how an account's entire
//! encrypted key material is rolled over in one piece, and how a second
//! device is authorized without re-entering the master password.  The
//! operations here validate and decide; storage, transport, mail and
//! push delivery are collaborators behind narrow interfaces, handed in
//! as plain values.  Encrypted blobs pass through opaque and are never
//! decrypted.

pub mod authreq;
pub mod clock;
pub mod config;
pub mod crypto;
pub mod device;
pub mod email;
pub mod encoding;
pub mod entities;
pub mod error;
pub mod hint;
pub mod kdf;
pub mod password;
pub mod profile;
pub mod randomness;
pub mod register;
pub mod rotation;
pub mod user;
