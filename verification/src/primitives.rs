//! Trusted boundary to the outside cryptography crates.
//!
//! Everything here is either a name for what an outside primitive returns or
//! a thin wrapper whose contract Verus believes; the verified logic of the
//! library rests on these contracts and on nothing else from outside.

use vstd::prelude::*;

use crate::cipher::CipherSpec;
use crate::errors::OpensslEncError;

verus! {

/// What PBKDF2-HMAC-SHA256 derives: a pure function of the password (as a
/// UTF-8 string), the salt, the iteration count and the requested length.
pub uninterp spec fn pbkdf2_hmac_sha256(
    password: Seq<char>,
    salt: Seq<u8>,
    iterations: u32,
    out_len: nat,
) -> Seq<u8>;

/// What AES-CBC encryption with PKCS#7 padding produces: a pure function of
/// the key (whose length selects the AES variant), the IV and the plaintext.
pub uninterp spec fn aes_cbc_encrypt(key: Seq<u8>, iv: Seq<u8>, data: Seq<u8>) -> Seq<u8>;

/// What AES-CBC decryption with PKCS#7 padding produces: `Some` plaintext,
/// or `None` when the input is not a well-padded ciphertext under that key
/// and IV.
pub uninterp spec fn aes_cbc_decrypt(key: Seq<u8>, iv: Seq<u8>, data: Seq<u8>) -> Option<Seq<u8>>;

/// A streaming cipher context of the outside crate, opaque to Verus.
#[verifier::external_type_specification]
#[verifier::external_body]
pub struct ExCrypter(openssl::symm::Crypter);

/// What a streaming context was created with: its key, its IV, whether it
/// encrypts (true) or decrypts (false), and its cipher's block size in bytes.
pub uninterp spec fn crypter_config(c: openssl::symm::Crypter) -> (Seq<u8>, Seq<u8>, bool, nat);

/// The bytes fed to a streaming context so far through its update calls.
pub uninterp spec fn crypter_fed(c: openssl::symm::Crypter) -> Seq<u8>;

/// The bytes a streaming context has emitted so far through its update calls.
pub uninterp spec fn crypter_emitted(c: openssl::symm::Crypter) -> Seq<u8>;

/// Relies on ring::pbkdf2::derive with PBKDF2_HMAC_SHA256: fills the output
/// with key material that depends only on the password bytes, the salt and
/// the iteration count. Never fails for the admitted lengths.
#[verifier::external_body]
pub(crate) fn pbkdf2_derive(password: &str, salt: &Vec<u8>, iterations: u32, out_len: usize) -> (r:
    Vec<u8>)
    requires
        iterations >= 1,
        password@.len() < 0x0400_0000_0000_0000,
        salt@.len() == 8,
        1 <= out_len <= 1024,
    ensures
        r@.len() == out_len,
        r@ == pbkdf2_hmac_sha256(password@, salt@, iterations, out_len as nat),
{
    let mut out = vec![0u8; out_len];
    let nz = core::num::NonZeroU32::new(iterations).unwrap();
    ring::pbkdf2::derive(
        ring::pbkdf2::PBKDF2_HMAC_SHA256,
        nz,
        salt.as_slice(),
        password.as_bytes(),
        &mut out,
    );
    out
}

/// Relies on openssl::rand::rand_bytes: fills a buffer from the
/// cryptographically secure random source; nothing is promised of the bytes
/// beyond their count. The buffer must fit a C int.
#[verifier::external_body]
pub(crate) fn random_bytes(len: usize) -> (r: Result<Vec<u8>, OpensslEncError>)
    requires
        len <= 0x7fff_ffff,
    ensures
        r matches Ok(v) ==> v@.len() == len,
        r matches Err(e) ==> e == OpensslEncError::DerivationFailure,
{
    let mut buf = vec![0u8; len];
    match openssl::rand::rand_bytes(&mut buf) {
        Ok(()) => Ok(buf),
        Err(_) => Err(OpensslEncError::DerivationFailure),
    }
}

/// Relies on openssl::symm::encrypt: one-shot AES-CBC encryption with PKCS#7
/// padding. The output is the padded ciphertext, one block longer than the
/// plaintext rounded down to a block boundary, and openssl::symm::decrypt
/// inverts it under the same key and IV.
#[verifier::external_body]
pub(crate) fn cbc_encrypt_oneshot(
    cipher: &CipherSpec,
    key: &Vec<u8>,
    iv: &Vec<u8>,
    data: &Vec<u8>,
) -> (r: Result<Vec<u8>, OpensslEncError>)
    requires
        key@.len() == cipher.spec_key_len(),
        iv@.len() == 16,
        data@.len() + 16 <= 0x7fff_ffff,
    ensures
        r matches Ok(c) ==> {
            &&& c@ == aes_cbc_encrypt(key@, iv@, data@)
            &&& c@.len() == data@.len() + 16 - (data@.len() % 16)
            &&& aes_cbc_decrypt(key@, iv@, c@) == Some(data@)
        },
        r matches Err(e) ==> e == OpensslEncError::PrimitiveFailure,
{
    let t = match cipher {
        CipherSpec::Aes128Cbc => openssl::symm::Cipher::aes_128_cbc(),
        CipherSpec::Aes192Cbc => openssl::symm::Cipher::aes_192_cbc(),
        CipherSpec::Aes256Cbc => openssl::symm::Cipher::aes_256_cbc(),
    };
    match openssl::symm::encrypt(t, key.as_slice(), Some(iv.as_slice()), data.as_slice()) {
        Ok(c) => Ok(c),
        Err(_) => Err(OpensslEncError::PrimitiveFailure),
    }
}

/// Relies on openssl::symm::decrypt: one-shot AES-CBC decryption with PKCS#7
/// padding. It returns the plaintext exactly when the input is a well-padded
/// ciphertext under the key and IV, and fails exactly otherwise.
#[verifier::external_body]
pub(crate) fn cbc_decrypt_oneshot(
    cipher: &CipherSpec,
    key: &Vec<u8>,
    iv: &Vec<u8>,
    data: &Vec<u8>,
) -> (r: Result<Vec<u8>, OpensslEncError>)
    requires
        key@.len() == cipher.spec_key_len(),
        iv@.len() == 16,
        data@.len() + 16 <= 0x7fff_ffff,
    ensures
        (match r {
            Ok(p) => aes_cbc_decrypt(key@, iv@, data@) == Some(p@),
            Err(e) => e == OpensslEncError::PrimitiveFailure && aes_cbc_decrypt(key@, iv@, data@)
                is None,
        }),
{
    let t = match cipher {
        CipherSpec::Aes128Cbc => openssl::symm::Cipher::aes_128_cbc(),
        CipherSpec::Aes192Cbc => openssl::symm::Cipher::aes_192_cbc(),
        CipherSpec::Aes256Cbc => openssl::symm::Cipher::aes_256_cbc(),
    };
    match openssl::symm::decrypt(t, key.as_slice(), Some(iv.as_slice()), data.as_slice()) {
        Ok(p) => Ok(p),
        Err(_) => Err(OpensslEncError::PrimitiveFailure),
    }
}

/// Relies on openssl::symm::Crypter::new: a fresh streaming context for the
/// cipher, key, IV and direction, which has fed and emitted nothing yet.
#[verifier::external_body]
pub(crate) fn crypter_new(
    cipher: &CipherSpec,
    key: &Vec<u8>,
    iv: &Vec<u8>,
    encrypt: bool,
) -> (r: Result<openssl::symm::Crypter, OpensslEncError>)
    requires
        key@.len() == cipher.spec_key_len(),
        iv@.len() == 16,
    ensures
        r matches Ok(c) ==> {
            &&& crypter_config(c) == (key@, iv@, encrypt, 16nat)
            &&& crypter_fed(c) == Seq::<u8>::empty()
            &&& crypter_emitted(c) == Seq::<u8>::empty()
        },
        r matches Err(e) ==> e == OpensslEncError::PrimitiveFailure,
{
    let t = match cipher {
        CipherSpec::Aes128Cbc => openssl::symm::Cipher::aes_128_cbc(),
        CipherSpec::Aes192Cbc => openssl::symm::Cipher::aes_192_cbc(),
        CipherSpec::Aes256Cbc => openssl::symm::Cipher::aes_256_cbc(),
    };
    let mode = if encrypt { openssl::symm::Mode::Encrypt } else { openssl::symm::Mode::Decrypt };
    match openssl::symm::Crypter::new(t, mode, key.as_slice(), Some(iv.as_slice())) {
        Ok(c) => Ok(c),
        Err(_) => Err(OpensslEncError::PrimitiveFailure),
    }
}

/// Relies on openssl::symm::Crypter::update: feeds `data` through the
/// context, writing the completed blocks into the front of `out` and
/// reporting how many bytes were written; an empty input performs no
/// operation and writes nothing. On failure the context's progress is
/// unspecified.
#[verifier::external_body]
pub(crate) fn crypter_update(c: &mut openssl::symm::Crypter, data: &Vec<u8>, out: &mut Vec<u8>) -> (r:
    Result<usize, OpensslEncError>)
    requires
        crypter_config(*old(c)).3 == 16,
        out@.len() >= data@.len() + 16,
        out@.len() <= 0x7fff_ffff,
    ensures
        final(out)@.len() == old(out)@.len(),
        r matches Ok(n) ==> {
            &&& n <= final(out)@.len()
            &&& crypter_config(*final(c)) == crypter_config(*old(c))
            &&& crypter_fed(*final(c)) == crypter_fed(*old(c)) + data@
            &&& crypter_emitted(*final(c)) == crypter_emitted(*old(c)) + final(out)@.take(n as int)
        },
        data@.len() == 0 ==> (r matches Ok(n) ==> n == 0),
        r matches Err(e) ==> e == OpensslEncError::PrimitiveFailure,
{
    match c.update(data.as_slice(), out.as_mut_slice()) {
        Ok(n) => Ok(n),
        Err(_) => Err(OpensslEncError::PrimitiveFailure),
    }
}

/// Relies on openssl::symm::Crypter::finalize, and on the fact (visible in
/// the outside crate's own one-shot implementation) that a streaming context
/// fed a byte sequence piecewise produces, over all its update calls and this
/// finalize, exactly the one-shot cipher output for that sequence. For an
/// encrypting context the concatenation is the padded ciphertext — one
/// PKCS#7 block longer than the fed bytes rounded down to a block boundary —
/// which one-shot decryption inverts; for a decrypting context finalize succeeds
/// exactly when the bytes fed were a well-padded ciphertext, and the
/// concatenation is then the plaintext. The context must not be used again.
#[verifier::external_body]
pub(crate) fn crypter_finalize(c: &mut openssl::symm::Crypter, out: &mut Vec<u8>) -> (r: Result<
    usize,
    OpensslEncError,
>)
    requires
        crypter_config(*old(c)).3 == 16,
        out@.len() >= 16,
        out@.len() <= 0x7fff_ffff,
    ensures
        final(out)@.len() == old(out)@.len(),
        r matches Ok(n) ==> n <= final(out)@.len(),
        r matches Err(e) ==> e == OpensslEncError::PrimitiveFailure,
        crypter_config(*old(c)).2 ==> (r matches Ok(n) ==> {
            &&& crypter_emitted(*old(c)) + final(out)@.take(n as int) == aes_cbc_encrypt(
                crypter_config(*old(c)).0,
                crypter_config(*old(c)).1,
                crypter_fed(*old(c)),
            )
            &&& crypter_emitted(*old(c)).len() + n == crypter_fed(*old(c)).len() + 16 - (
            crypter_fed(*old(c)).len() % 16)
            &&& aes_cbc_decrypt(
                crypter_config(*old(c)).0,
                crypter_config(*old(c)).1,
                crypter_emitted(*old(c)) + final(out)@.take(n as int),
            ) == Some(crypter_fed(*old(c)))
        }),
        !crypter_config(*old(c)).2 ==> (r matches Ok(n) ==> aes_cbc_decrypt(
            crypter_config(*old(c)).0,
            crypter_config(*old(c)).1,
            crypter_fed(*old(c)),
        ) == Some(crypter_emitted(*old(c)) + final(out)@.take(n as int))),
        !crypter_config(*old(c)).2 && aes_cbc_decrypt(
            crypter_config(*old(c)).0,
            crypter_config(*old(c)).1,
            crypter_fed(*old(c)),
        ) is Some ==> r is Ok,
{
    match c.finalize(out.as_mut_slice()) {
        Ok(n) => Ok(n),
        Err(_) => Err(OpensslEncError::PrimitiveFailure),
    }
}

} // verus!
