//! Password-based symmetric encryption compatible with the `openssl enc`
//! command-line tool's "salted" stream format: a fixed 16-byte header (the
//! ASCII tag `Salted__` followed by an 8-byte salt) and then the block-cipher
//! output, with the key and IV both derived from the password and the salt by
//! PBKDF2-HMAC-SHA256.
//!
//! The cipher and derivation primitives come from outside cryptography
//! libraries; this crate verifies the logic around them: key-material
//! handling, header injection and stripping, and the per-direction streaming
//! state machine that makes chunked output byte-identical to one-shot output.

pub mod bytes;
pub mod cipher;
pub mod errors;
pub mod header;
pub mod laws;
pub mod primitives;
pub mod session;

pub use cipher::CipherSpec;
pub use errors::OpensslEncError;
pub use session::OpensslEnc;
