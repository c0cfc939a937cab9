//! Error taxonomy of the library.

use vstd::prelude::*;

verus! {

/// Every fallible operation of the library reports one of these conditions.
#[derive(Clone, Copy, PartialEq, Eq, Structural, Debug)]
pub enum OpensslEncError {
    /// Key derivation was refused: a zero iteration count, or the
    /// random-byte source failed.
    DerivationFailure,
    /// Finalize was invoked on a direction with no active streaming context.
    ContextMissing,
    /// The underlying cipher primitive rejected the operation (for example,
    /// corrupted ciphertext producing invalid padding on decrypt finalize).
    PrimitiveFailure,
    /// A stream did not start with a well-formed 16-byte salted header.
    HeaderFormatError,
}

impl OpensslEncError {
    /// A short description of the error condition.
    pub fn message(&self) -> (r: &'static str)
        ensures
            r@.len() > 0,
    {
        let s = match self {
            OpensslEncError::DerivationFailure => "key derivation failed",
            OpensslEncError::ContextMissing => "no active cipher context",
            OpensslEncError::PrimitiveFailure => "cipher primitive failed",
            OpensslEncError::HeaderFormatError => "malformed salted header",
        };
        proof {
            reveal_strlit("key derivation failed");
            reveal_strlit("no active cipher context");
            reveal_strlit("cipher primitive failed");
            reveal_strlit("malformed salted header");
        }
        s
    }
}

} // verus!
