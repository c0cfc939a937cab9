//! The cipher variants the library supports, with their key, IV and block
//! sizes.

use vstd::prelude::*;

verus! {

/// An AES-CBC cipher variant. All variants share the 16-byte AES block and a
/// 16-byte IV; they differ in key length.
#[derive(Clone, Copy, PartialEq, Eq, Structural, Debug)]
pub enum CipherSpec {
    Aes128Cbc,
    Aes192Cbc,
    Aes256Cbc,
}

impl CipherSpec {
    /// Length in bytes of the key this cipher requires.
    pub open spec fn spec_key_len(self) -> nat {
        match self {
            CipherSpec::Aes128Cbc => 16,
            CipherSpec::Aes192Cbc => 24,
            CipherSpec::Aes256Cbc => 32,
        }
    }

    /// Length in bytes of the IV this cipher requires.
    pub open spec fn spec_iv_len(self) -> nat {
        16
    }

    /// Cipher block size in bytes.
    pub open spec fn spec_block_size(self) -> nat {
        16
    }

    pub fn key_len(&self) -> (r: usize)
        ensures
            r == self.spec_key_len(),
    {
        match self {
            CipherSpec::Aes128Cbc => 16,
            CipherSpec::Aes192Cbc => 24,
            CipherSpec::Aes256Cbc => 32,
        }
    }

    pub fn iv_len(&self) -> (r: usize)
        ensures
            r == self.spec_iv_len(),
    {
        16
    }

    pub fn block_size(&self) -> (r: usize)
        ensures
            r == self.spec_block_size(),
    {
        16
    }
}

/// Switching between the 128-bit and the 256-bit variant of the same mode
/// changes the length of the key material that derivation must produce.
pub proof fn lemma_cipher_size_sensitivity()
    ensures
        CipherSpec::Aes128Cbc.spec_key_len() != CipherSpec::Aes256Cbc.spec_key_len(),
        CipherSpec::Aes128Cbc.spec_key_len() == 16,
        CipherSpec::Aes256Cbc.spec_key_len() == 32,
{
}

} // verus!
