//! The fixed 16-byte salted header: an 8-byte ASCII tag followed by the
//! 8-byte salt.

use vstd::prelude::*;

use crate::errors::OpensslEncError;

verus! {

/// The fixed 8-byte ASCII tag `Salted__` that opens every stream.
pub open spec fn magic_tag() -> Seq<u8> {
    seq![0x53u8, 0x61u8, 0x6cu8, 0x74u8, 0x65u8, 0x64u8, 0x5fu8, 0x5fu8]
}

/// The 16-byte header built from an 8-byte salt: the tag, then the salt,
/// no separators.
pub open spec fn header_of(salt: Seq<u8>) -> Seq<u8> {
    magic_tag() + salt
}

/// A header is the tag in its first 8 bytes and the salt in its last 8;
/// decoding what was encoded returns the salt.
pub proof fn lemma_header_codec(salt: Seq<u8>)
    requires
        salt.len() == 8,
    ensures
        header_of(salt).len() == 16,
        header_of(salt).take(8) == magic_tag(),
        header_of(salt).subrange(8, 16) == salt,
{
    assert(header_of(salt).take(8) =~= magic_tag());
    assert(header_of(salt).subrange(8, 16) =~= salt);
}

/// The tag as bytes.
pub fn magic_tag_bytes() -> (r: Vec<u8>)
    ensures
        r@ == magic_tag(),
{
    let mut r: Vec<u8> = Vec::new();
    r.push(0x53u8);
    r.push(0x61u8);
    r.push(0x6cu8);
    r.push(0x74u8);
    r.push(0x65u8);
    r.push(0x64u8);
    r.push(0x5fu8);
    r.push(0x5fu8);
    proof {
        assert(r@ =~= magic_tag());
    }
    r
}

/// Builds the 16-byte header for an 8-byte salt.
pub fn encode_header(salt: &Vec<u8>) -> (r: Vec<u8>)
    requires
        salt@.len() == 8,
    ensures
        r@ == header_of(salt@),
        r@.len() == 16,
{
    let mut r = magic_tag_bytes();
    let mut i: usize = 0;
    while i < salt.len()
        invariant
            salt@.len() == 8,
            0 <= i <= 8,
            r@ == magic_tag() + salt@.take(i as int),
        decreases salt@.len() - i,
    {
        r.push(salt[i]);
        i = i + 1;
        proof {
            assert(magic_tag() + salt@.take(i - 1) + seq![salt@[i - 1]]
                =~= magic_tag() + salt@.take(i as int));
        }
    }
    proof {
        assert(salt@.take(8) =~= salt@);
    }
    r
}

/// Whether the first 8 bytes of `data` are the tag.
pub fn has_magic_tag(data: &Vec<u8>) -> (r: bool)
    requires
        data@.len() >= 8,
    ensures
        r == (data@.take(8) == magic_tag()),
{
    let tag = magic_tag_bytes();
    let mut i: usize = 0;
    while i < 8
        invariant
            data@.len() >= 8,
            tag@ == magic_tag(),
            0 <= i <= 8,
            forall|j: int| 0 <= j < i ==> data@[j] == magic_tag()[j],
        decreases 8 - i,
    {
        if data[i] != tag[i] {
            proof {
                assert(data@.take(8)[i as int] != magic_tag()[i as int]);
            }
            return false;
        }
        i = i + 1;
    }
    proof {
        assert(data@.take(8) =~= magic_tag());
    }
    true
}

/// Extracts the salt from a stream prefix: at least 16 bytes whose first 8
/// equal the tag; fails with a header-format error otherwise.
pub fn decode_header(data: &Vec<u8>) -> (r: Result<Vec<u8>, OpensslEncError>)
    ensures
        data@.len() < 16 ==> r == Err::<Vec<u8>, OpensslEncError>(OpensslEncError::HeaderFormatError),
        data@.len() >= 16 && data@.take(8) != magic_tag() ==> r == Err::<Vec<u8>, OpensslEncError>(
            OpensslEncError::HeaderFormatError,
        ),
        data@.len() >= 16 && data@.take(8) == magic_tag() ==> (r matches Ok(s) && s@ == data@.subrange(
            8,
            16,
        )),
{
    if data.len() < 16 {
        return Err(OpensslEncError::HeaderFormatError);
    }
    if !has_magic_tag(data) {
        return Err(OpensslEncError::HeaderFormatError);
    }
    let mut salt: Vec<u8> = Vec::new();
    let mut i: usize = 8;
    while i < 16
        invariant
            data@.len() >= 16,
            8 <= i <= 16,
            salt@ == data@.subrange(8, i as int),
        decreases 16 - i,
    {
        salt.push(data[i]);
        i = i + 1;
        proof {
            assert(data@.subrange(8, i - 1) + seq![data@[i - 1]] =~= data@.subrange(8, i as int));
        }
    }
    Ok(salt)
}

} // verus!
