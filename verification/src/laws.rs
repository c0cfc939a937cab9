//! Properties that relate the library's operations to one another, stated
//! and proved against their contracts.

use vstd::prelude::*;

use crate::cipher::CipherSpec;
use crate::errors::OpensslEncError;
use crate::header::magic_tag;
use crate::primitives::{aes_cbc_decrypt, aes_cbc_encrypt};
use crate::session::OpensslEnc;

verus! {

/// The concatenation of a sequence of byte chunks, in order.
pub open spec fn concat_chunks(chunks: Seq<Seq<u8>>) -> Seq<u8>
    decreases chunks.len(),
{
    if chunks.len() == 0 {
        Seq::empty()
    } else {
        concat_chunks(chunks.drop_last()) + chunks.last()
    }
}

/// Concatenating one chunk more extends the concatenation by that chunk.
pub proof fn lemma_concat_chunks_step(chunks: Seq<Seq<u8>>, i: int)
    requires
        0 <= i < chunks.len(),
    ensures
        concat_chunks(chunks.take(i + 1)) == concat_chunks(chunks.take(i)) + chunks[i],
{
    assert(chunks.take(i + 1).drop_last() =~= chunks.take(i));
    assert(chunks.take(i + 1).last() == chunks[i]);
}

/// Round trip: decrypting an encryption of `data` on the same session gives
/// back `data` unchanged. Encryption may fail in the primitive; decryption
/// of a successful encryption cannot, so every `Ok` holds the original
/// plaintext.
pub fn round_trip(session: &mut OpensslEnc, data: &Vec<u8>) -> (r: Result<Vec<u8>, OpensslEncError>)
    requires
        old(session).wf(),
        data@.len() + 48 <= 0x7fff_ffff,
    ensures
        *final(session) == *old(session),
        r matches Ok(p) ==> p@ == data@,
        r matches Err(e) ==> e == OpensslEncError::PrimitiveFailure,
{
    let ciphertext = match session.encrypt(data) {
        Ok(c) => c,
        Err(e) => {
            return Err(e);
        },
    };
    proof {
        session.lemma_header_shape();
        assert(ciphertext@.take(16).take(8) =~= ciphertext@.take(8));
        assert((magic_tag() + session.spec_salt()).take(8) =~= magic_tag());
    }
    session.decrypt(&ciphertext)
}

/// Chunk/one-shot equivalence, encrypt side: feeding any partition of a
/// plaintext chunk by chunk and finalizing yields the 16-byte header
/// followed by exactly the one-shot cipher output of the chunks'
/// concatenation — the same bytes `encrypt` returns for the whole plaintext.
pub fn encrypt_chunked(session: &mut OpensslEnc, chunks: &Vec<Vec<u8>>) -> (r: Result<
    Vec<u8>,
    OpensslEncError,
>)
    requires
        old(session).wf(),
        !old(session).enc_active(),
        forall|i: int|
            0 <= i < chunks@.len() ==> (#[trigger] chunks@[i])@.len() + 16 <= 0x7fff_ffff,
    ensures
        final(session).wf(),
        old(session).same_config(*final(session)),
        old(session).dec_unchanged(*final(session)),
        !final(session).enc_active(),
        r matches Ok(out) ==> {
            let all = concat_chunks(chunks@.map_values(|c: Vec<u8>| c@));
            &&& out@ == old(session).spec_header() + aes_cbc_encrypt(
                old(session).spec_key(),
                old(session).spec_iv(),
                all,
            )
            &&& out@.len() == 16 + all.len() + 16 - (all.len() % 16)
            &&& aes_cbc_decrypt(old(session).spec_key(), old(session).spec_iv(), out@.skip(16))
                == Some(all)
        },
{
    let ghost views = chunks@.map_values(|c: Vec<u8>| c@);
    let mut acc: Vec<u8> = Vec::new();
    let mut i: usize = 0;
    while i < chunks.len()
        invariant
            views == chunks@.map_values(|c: Vec<u8>| c@),
            forall|j: int|
                0 <= j < chunks@.len() ==> (#[trigger] chunks@[j])@.len() + 16 <= 0x7fff_ffff,
            0 <= i <= chunks@.len(),
            session.wf(),
            old(session).same_config(*session),
            old(session).dec_unchanged(*session),
            i == 0 ==> !session.enc_active() && acc@ == Seq::<u8>::empty(),
            i > 0 ==> session.enc_active() && session.enc_fed() == concat_chunks(
                views.take(i as int),
            ) && acc@ == old(session).spec_header() + session.enc_emitted(),
        decreases chunks@.len() - i,
    {
        let mut out = match session.encrypt_chunk(&chunks[i]) {
            Ok(o) => o,
            Err(e) => {
                return Err(e);
            },
        };
        proof {
            lemma_concat_chunks_step(views, i as int);
            assert(views[i as int] == chunks@[i as int]@);
            if i == 0 {
                assert(concat_chunks(views.take(0)) =~= Seq::<u8>::empty());
                assert(Seq::<u8>::empty() + views[0] =~= views[0]);
            }
        }
        acc.append(&mut out);
        i = i + 1;
    }
    if chunks.len() == 0 {
        let empty_chunk: Vec<u8> = Vec::new();
        let mut out = match session.encrypt_chunk(&empty_chunk) {
            Ok(o) => o,
            Err(e) => {
                return Err(e);
            },
        };
        acc.append(&mut out);
        proof {
            assert(session.enc_fed() =~= concat_chunks(views));
        }
    } else {
        proof {
            assert(views.take(views.len() as int) =~= views);
        }
    }
    let ghost emitted_total = session.enc_emitted();
    let mut fin = match session.encrypter_finalize() {
        Ok(f) => f,
        Err(e) => {
            return Err(e);
        },
    };
    proof {
        assert((old(session).spec_header() + emitted_total) + fin@ =~= old(session).spec_header()
            + (emitted_total + fin@));
    }
    let ghost fin_view = fin@;
    acc.append(&mut fin);
    proof {
        session.lemma_header_shape();
        assert(acc@.skip(16) =~= emitted_total + fin_view);
    }
    Ok(acc)
}

/// Round trip across the interfaces: a stream encrypted chunk by chunk and
/// finalized decrypts, through the one-shot path of the same session, back
/// to the concatenation of the chunks. Only the encrypting primitive can
/// fail; every `Ok` holds the original plaintext.
pub fn round_trip_chunked(session: &mut OpensslEnc, chunks: &Vec<Vec<u8>>) -> (r: Result<
    Vec<u8>,
    OpensslEncError,
>)
    requires
        old(session).wf(),
        !old(session).enc_active(),
        forall|i: int|
            0 <= i < chunks@.len() ==> (#[trigger] chunks@[i])@.len() + 16 <= 0x7fff_ffff,
        concat_chunks(chunks@.map_values(|c: Vec<u8>| c@)).len() + 64 <= 0x7fff_ffff,
    ensures
        final(session).wf(),
        old(session).same_config(*final(session)),
        old(session).dec_unchanged(*final(session)),
        !final(session).enc_active(),
        r matches Ok(p) ==> p@ == concat_chunks(chunks@.map_values(|c: Vec<u8>| c@)),
{
    let ciphertext = match encrypt_chunked(session, chunks) {
        Ok(c) => c,
        Err(e) => {
            return Err(e);
        },
    };
    proof {
        session.lemma_header_shape();
        assert(ciphertext@.take(16).take(8) =~= ciphertext@.take(8));
        assert((magic_tag() + session.spec_salt()).take(8) =~= magic_tag());
        assert(ciphertext@.take(16) =~= session.spec_header());
    }
    session.decrypt(&ciphertext)
}

/// Chunk/one-shot equivalence, decrypt side: feeding any partition of a
/// headered ciphertext chunk by chunk — the first piece holding at least the
/// whole 16-byte header, as the chunked interface demands — and finalizing
/// yields exactly what one-shot decryption of the concatenation yields.
pub fn decrypt_chunked(session: &mut OpensslEnc, chunks: &Vec<Vec<u8>>) -> (r: Result<
    Vec<u8>,
    OpensslEncError,
>)
    requires
        old(session).wf(),
        !old(session).dec_active(),
        chunks@.len() >= 1,
        (chunks@[0])@.len() >= 16,
        forall|i: int|
            0 <= i < chunks@.len() ==> (#[trigger] chunks@[i])@.len() + 16 <= 0x7fff_ffff,
    ensures
        final(session).wf(),
        old(session).same_config(*final(session)),
        old(session).enc_unchanged(*final(session)),
        !final(session).dec_active(),
        r matches Ok(out) ==> {
            let all = concat_chunks(chunks@.map_values(|c: Vec<u8>| c@));
            &&& all.take(8) == magic_tag()
            &&& aes_cbc_decrypt(old(session).spec_key(), old(session).spec_iv(), all.skip(16))
                == Some(out@)
        },
{
    let ghost views = chunks@.map_values(|c: Vec<u8>| c@);
    let mut acc: Vec<u8> = Vec::new();
    let mut i: usize = 0;
    while i < chunks.len()
        invariant
            views == chunks@.map_values(|c: Vec<u8>| c@),
            forall|j: int|
                0 <= j < chunks@.len() ==> (#[trigger] chunks@[j])@.len() + 16 <= 0x7fff_ffff,
            1 <= chunks@.len(),
            views[0].len() >= 16,
            0 <= i <= chunks@.len(),
            session.wf(),
            old(session).same_config(*session),
            old(session).enc_unchanged(*session),
            i == 0 ==> !session.dec_active() && acc@ == Seq::<u8>::empty(),
            i > 0 ==> {
                &&& session.dec_active()
                &&& views[0].take(8) == magic_tag()
                &&& concat_chunks(views.take(i as int)) == views[0].take(16) + session.dec_fed()
                &&& acc@ == session.dec_emitted()
            },
        decreases chunks@.len() - i,
    {
        let mut out = match session.decrypt_chunk(&chunks[i]) {
            Ok(o) => o,
            Err(e) => {
                return Err(e);
            },
        };
        proof {
            lemma_concat_chunks_step(views, i as int);
            assert(views[i as int] == chunks@[i as int]@);
            if i == 0 {
                assert(concat_chunks(views.take(0)) =~= Seq::<u8>::empty());
                assert(Seq::<u8>::empty() + views[0] =~= views[0]);
                assert(views[0] =~= views[0].take(16) + views[0].skip(16));
                assert(Seq::<u8>::empty() + views[0].skip(16) =~= views[0].skip(16));
            } else {
                assert((views[0].take(16) + session.dec_fed()) + views[i as int] =~= views[0].take(
                    16,
                ) + (session.dec_fed() + views[i as int]));
            }
        }
        acc.append(&mut out);
        i = i + 1;
    }
    let ghost fed_total = session.dec_fed();
    let ghost emitted_total = session.dec_emitted();
    let mut fin = match session.decrypter_finalize() {
        Ok(f) => f,
        Err(e) => {
            return Err(e);
        },
    };
    let ghost all = concat_chunks(views);
    proof {
        assert(views.take(views.len() as int) =~= views);
        assert(all.skip(16) =~= fed_total);
        assert(all.take(8) =~= views[0].take(16).take(8));
        assert(views[0].take(16).take(8) =~= views[0].take(8));
    }
    acc.append(&mut fin);
    Ok(acc)
}

/// Determinism under a fixed salt: two sessions built from the same
/// password, cipher spec, iteration count and salt hold the same key, IV and
/// header, and so every output of one — derived key material, headers,
/// ciphertexts — is byte-for-byte an output of the other.
pub proof fn lemma_determinism_under_fixed_salt(
    s1: OpensslEnc,
    s2: OpensslEnc,
    password: Seq<char>,
    cipher: CipherSpec,
    iterations: u32,
    salt: Seq<u8>,
    data: Seq<u8>,
)
    requires
        s1.built_from(password, cipher, iterations, salt),
        s2.built_from(password, cipher, iterations, salt),
    ensures
        s1.spec_key() == s2.spec_key(),
        s1.spec_iv() == s2.spec_iv(),
        s1.spec_header() == s2.spec_header(),
        s1.spec_header() + aes_cbc_encrypt(s1.spec_key(), s1.spec_iv(), data) == s2.spec_header()
            + aes_cbc_encrypt(s2.spec_key(), s2.spec_iv(), data),
{
}

} // verus!
