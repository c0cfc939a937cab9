//! The cipher session: key material derived once, plus two independent
//! per-direction streaming state machines.

use vstd::prelude::*;

use crate::bytes::{copy_range, zero_vec};
use crate::cipher::CipherSpec;
use crate::errors::OpensslEncError;
use crate::header::{encode_header, has_magic_tag, header_of, magic_tag};
use crate::primitives::{
    aes_cbc_decrypt, aes_cbc_encrypt, cbc_decrypt_oneshot, cbc_encrypt_oneshot, crypter_config,
    crypter_emitted, crypter_fed, crypter_finalize, crypter_new, crypter_update, pbkdf2_derive,
    pbkdf2_hmac_sha256, random_bytes,
};

verus! {

/// The key the session derives from its inputs: the first `key_len` bytes of
/// the PBKDF2 output.
pub open spec fn session_key(
    password: Seq<char>,
    salt: Seq<u8>,
    iterations: u32,
    cipher: CipherSpec,
) -> Seq<u8> {
    pbkdf2_hmac_sha256(password, salt, iterations, (cipher.spec_key_len() + 16) as nat).take(
        cipher.spec_key_len() as int,
    )
}

/// The IV the session derives from its inputs: the remaining 16 bytes of the
/// PBKDF2 output, after the key.
pub open spec fn session_iv(
    password: Seq<char>,
    salt: Seq<u8>,
    iterations: u32,
    cipher: CipherSpec,
) -> Seq<u8> {
    pbkdf2_hmac_sha256(password, salt, iterations, (cipher.spec_key_len() + 16) as nat).skip(
        cipher.spec_key_len() as int,
    )
}

/// A session holding one derived key/IV pair, the salted header built from
/// the salt that derivation consumed, and two direction state machines.
pub struct OpensslEnc {
    cipher: CipherSpec,
    key: Vec<u8>,
    iv: Vec<u8>,
    magic_header: Vec<u8>,
    block_size: usize,
    encrypter: Option<openssl::symm::Crypter>,
    decrypter: Option<openssl::symm::Crypter>,
    add_magic_header: bool,
    remove_magic_header: bool,
}

impl OpensslEnc {
    /// The cipher variant the session was built for.
    pub closed spec fn spec_cipher(self) -> CipherSpec {
        self.cipher
    }

    /// The derived key.
    pub closed spec fn spec_key(self) -> Seq<u8> {
        self.key@
    }

    /// The derived IV.
    pub closed spec fn spec_iv(self) -> Seq<u8> {
        self.iv@
    }

    /// The 16-byte salted header of the session.
    pub closed spec fn spec_header(self) -> Seq<u8> {
        self.magic_header@
    }

    /// The salt that key derivation consumed.
    pub open spec fn spec_salt(self) -> Seq<u8> {
        self.spec_header().skip(8)
    }

    /// Whether the encrypt direction holds an active streaming context.
    pub closed spec fn enc_active(self) -> bool {
        self.encrypter is Some
    }

    /// The plaintext bytes fed to the encrypt direction's current stream.
    pub closed spec fn enc_fed(self) -> Seq<u8> {
        match self.encrypter {
            Some(c) => crypter_fed(c),
            None => Seq::empty(),
        }
    }

    /// The ciphertext bytes the encrypt direction's current stream has
    /// emitted, the header aside.
    pub closed spec fn enc_emitted(self) -> Seq<u8> {
        match self.encrypter {
            Some(c) => crypter_emitted(c),
            None => Seq::empty(),
        }
    }

    /// Whether the next encrypted chunk opens a stream and so carries the
    /// header.
    pub closed spec fn enc_header_pending(self) -> bool {
        self.add_magic_header
    }

    /// Whether the decrypt direction holds an active streaming context.
    pub closed spec fn dec_active(self) -> bool {
        self.decrypter is Some
    }

    /// The ciphertext bytes fed to the decrypt direction's current stream,
    /// the header aside.
    pub closed spec fn dec_fed(self) -> Seq<u8> {
        match self.decrypter {
            Some(c) => crypter_fed(c),
            None => Seq::empty(),
        }
    }

    /// The plaintext bytes the decrypt direction's current stream has
    /// emitted.
    pub closed spec fn dec_emitted(self) -> Seq<u8> {
        match self.decrypter {
            Some(c) => crypter_emitted(c),
            None => Seq::empty(),
        }
    }

    /// Whether the next decrypted chunk opens a stream and so must begin
    /// with the header.
    pub closed spec fn dec_header_pending(self) -> bool {
        self.remove_magic_header
    }

    /// Well-formedness: lengths match the cipher, the header is a tag plus
    /// salt, each live context belongs to this session's key material and
    /// direction, and a direction expects a header exactly when it is idle.
    pub closed spec fn wf(self) -> bool {
        &&& self.key@.len() == self.cipher.spec_key_len()
        &&& self.iv@.len() == 16
        &&& self.block_size == 16
        &&& self.magic_header@.len() == 16
        &&& self.magic_header@.take(8) == magic_tag()
        &&& (self.encrypter matches Some(c) ==> crypter_config(c) == (
            self.key@,
            self.iv@,
            true,
            16nat,
        ))
        &&& (self.decrypter matches Some(c) ==> crypter_config(c) == (
            self.key@,
            self.iv@,
            false,
            16nat,
        ))
        &&& (self.add_magic_header <==> self.encrypter is None)
        &&& (self.remove_magic_header <==> self.decrypter is None)
    }

    /// A session built from these inputs: its cipher, salt, header, key and
    /// IV are all pinned by them.
    pub open spec fn built_from(
        self,
        password: Seq<char>,
        cipher: CipherSpec,
        iterations: u32,
        salt: Seq<u8>,
    ) -> bool {
        &&& self.spec_cipher() == cipher
        &&& self.spec_header() == header_of(salt)
        &&& self.spec_key() == session_key(password, salt, iterations, cipher)
        &&& self.spec_iv() == session_iv(password, salt, iterations, cipher)
    }

    /// Both directions idle, as after construction or finalize.
    pub open spec fn both_idle(self) -> bool {
        &&& !self.enc_active()
        &&& self.enc_header_pending()
        &&& !self.dec_active()
        &&& self.dec_header_pending()
    }

    /// The session's static configuration: unchanged by every operation
    /// after construction.
    pub open spec fn same_config(self, other: OpensslEnc) -> bool {
        &&& self.spec_cipher() == other.spec_cipher()
        &&& self.spec_key() == other.spec_key()
        &&& self.spec_iv() == other.spec_iv()
        &&& self.spec_header() == other.spec_header()
    }

    /// The encrypt direction's state, untouched.
    pub open spec fn enc_unchanged(self, other: OpensslEnc) -> bool {
        &&& self.enc_active() == other.enc_active()
        &&& self.enc_fed() == other.enc_fed()
        &&& self.enc_emitted() == other.enc_emitted()
        &&& self.enc_header_pending() == other.enc_header_pending()
    }

    /// The decrypt direction's state, untouched.
    pub open spec fn dec_unchanged(self, other: OpensslEnc) -> bool {
        &&& self.dec_active() == other.dec_active()
        &&& self.dec_fed() == other.dec_fed()
        &&& self.dec_emitted() == other.dec_emitted()
        &&& self.dec_header_pending() == other.dec_header_pending()
    }

    /// The header of a well-formed session is the tag followed by its salt.
    pub proof fn lemma_header_shape(self)
        requires
            self.wf(),
        ensures
            self.spec_header() == magic_tag() + self.spec_salt(),
            self.spec_header().len() == 16,
            self.spec_salt().len() == 8,
    {
        assert(self.spec_header() =~= magic_tag() + self.spec_salt());
    }

    /// Creates a session from a caller-supplied salt: derivation is then a
    /// pure function of the arguments, so everything the session produces is
    /// reproducible. Fails exactly when the iteration count is zero or the
    /// salt is not 8 bytes.
    pub fn new_with_salt(
        password: String,
        cipher: CipherSpec,
        iteration_count: u32,
        salt: &Vec<u8>,
    ) -> (r: Result<OpensslEnc, OpensslEncError>)
        requires
            password@.len() < 0x0400_0000_0000_0000,
        ensures
            r matches Ok(s) ==> {
                &&& iteration_count >= 1
                &&& salt@.len() == 8
                &&& s.wf()
                &&& s.both_idle()
                &&& s.spec_salt() == salt@
                &&& s.built_from(password@, cipher, iteration_count, salt@)
                &&& s.spec_key().len() == cipher.spec_key_len()
                &&& s.spec_iv().len() == 16
            },
            r is Err ==> r == Err::<OpensslEnc, OpensslEncError>(OpensslEncError::DerivationFailure)
                && (iteration_count == 0 || salt@.len() != 8),
    {
        if iteration_count == 0 {
            return Err(OpensslEncError::DerivationFailure);
        }
        if salt.len() != 8 {
            return Err(OpensslEncError::DerivationFailure);
        }
        let key_len = cipher.key_len();
        let iv_len = cipher.iv_len();
        let okm = pbkdf2_derive(password.as_str(), salt, iteration_count, key_len + iv_len);
        let key = copy_range(&okm, 0, key_len);
        let iv = copy_range(&okm, key_len, key_len + iv_len);
        proof {
            assert(okm@.subrange(0, key_len as int) =~= okm@.take(key_len as int));
            assert(okm@.take(key_len as int) == session_key(
                password@,
                salt@,
                iteration_count,
                cipher,
            ));
            assert(okm@.subrange(key_len as int, key_len + iv_len) =~= okm@.skip(key_len as int));
        }
        let magic_header = encode_header(salt);
        proof {
            assert(header_of(salt@).skip(8) =~= salt@);
            assert(header_of(salt@).take(8) =~= magic_tag());
        }
        Ok(
            OpensslEnc {
                cipher,
                key,
                iv,
                magic_header,
                block_size: cipher.block_size(),
                encrypter: None,
                decrypter: None,
                add_magic_header: true,
                remove_magic_header: true,
            },
        )
    }

    /// Creates a session with a fresh 8-byte random salt; derivation happens
    /// exactly once, here. Fails when the iteration count is zero or the
    /// random source fails.
    pub fn new(password: String, cipher: CipherSpec, iteration_count: u32) -> (r: Result<
        OpensslEnc,
        OpensslEncError,
    >)
        requires
            password@.len() < 0x0400_0000_0000_0000,
        ensures
            r matches Ok(s) ==> {
                &&& iteration_count >= 1
                &&& s.wf()
                &&& s.both_idle()
                &&& s.spec_salt().len() == 8
                &&& s.built_from(password@, cipher, iteration_count, s.spec_salt())
                &&& s.spec_key().len() == cipher.spec_key_len()
                &&& s.spec_iv().len() == 16
            },
            iteration_count == 0 ==> r == Err::<OpensslEnc, OpensslEncError>(
                OpensslEncError::DerivationFailure,
            ),
            r matches Err(e) ==> e == OpensslEncError::DerivationFailure,
    {
        if iteration_count == 0 {
            return Err(OpensslEncError::DerivationFailure);
        }
        let salt = match random_bytes(8) {
            Ok(s) => s,
            Err(e) => {
                return Err(e);
            },
        };
        match Self::new_with_salt(password, cipher, iteration_count, &salt) {
            Ok(s) => Ok(s),
            Err(e) => Err(e),
        }
    }

    /// One-shot encryption: the 16-byte header followed by the cipher output
    /// for the whole plaintext. Leaves the session untouched, the chunked
    /// directions included.
    pub fn encrypt(&mut self, data: &Vec<u8>) -> (r: Result<Vec<u8>, OpensslEncError>)
        requires
            old(self).wf(),
            data@.len() + 16 <= 0x7fff_ffff,
        ensures
            *final(self) == *old(self),
            r matches Ok(c) ==> {
                &&& c@ == old(self).spec_header() + aes_cbc_encrypt(
                    old(self).spec_key(),
                    old(self).spec_iv(),
                    data@,
                )
                &&& c@.len() == 16 + data@.len() + 16 - (data@.len() % 16)
                &&& c@.take(16) == old(self).spec_header()
                &&& aes_cbc_decrypt(old(self).spec_key(), old(self).spec_iv(), c@.skip(16))
                    == Some(data@)
            },
            r matches Err(e) ==> e == OpensslEncError::PrimitiveFailure,
    {
        let ciphertext = match cbc_encrypt_oneshot(&self.cipher, &self.key, &self.iv, data) {
            Ok(c) => c,
            Err(e) => {
                return Err(e);
            },
        };
        let mut out: Vec<u8> = Vec::new();
        let mut header = copy_range(&self.magic_header, 0, self.magic_header.len());
        let mut tail = ciphertext;
        out.append(&mut header);
        out.append(&mut tail);
        proof {
            assert(old(self).spec_header().subrange(0, 16) =~= old(self).spec_header());
            assert(out@.take(16) =~= old(self).spec_header());
            assert(out@.skip(16) =~= aes_cbc_encrypt(
                old(self).spec_key(),
                old(self).spec_iv(),
                data@,
            ));
        }
        Ok(out)
    }

    /// One-shot decryption: validates and strips the 16-byte header, then
    /// decrypts the remainder. Succeeds exactly when the header is
    /// well-formed and the remainder is a well-padded ciphertext under the
    /// session's key and IV. Leaves the session untouched.
    pub fn decrypt(&mut self, data: &Vec<u8>) -> (r: Result<Vec<u8>, OpensslEncError>)
        requires
            old(self).wf(),
            data@.len() <= 0x7fff_ffff - 16,
        ensures
            *final(self) == *old(self),
            data@.len() < 16 ==> r == Err::<Vec<u8>, OpensslEncError>(
                OpensslEncError::HeaderFormatError,
            ),
            data@.len() >= 16 && data@.take(8) != magic_tag() ==> r == Err::<Vec<u8>, OpensslEncError>(
                OpensslEncError::HeaderFormatError,
            ),
            data@.len() >= 16 && data@.take(8) == magic_tag() ==> {
                &&& (r matches Ok(p) ==> aes_cbc_decrypt(
                    old(self).spec_key(),
                    old(self).spec_iv(),
                    data@.skip(16),
                ) == Some(p@))
                &&& (r is Err ==> r == Err::<Vec<u8>, OpensslEncError>(
                    OpensslEncError::PrimitiveFailure,
                ) && aes_cbc_decrypt(old(self).spec_key(), old(self).spec_iv(), data@.skip(16))
                    is None)
            },
    {
        if data.len() < 16 {
            return Err(OpensslEncError::HeaderFormatError);
        }
        if !has_magic_tag(data) {
            return Err(OpensslEncError::HeaderFormatError);
        }
        let body = copy_range(data, 16, data.len());
        proof {
            assert(body@ =~= data@.skip(16));
        }
        cbc_decrypt_oneshot(&self.cipher, &self.key, &self.iv, &body)
    }

    /// Encrypts one chunk of a stream. The first chunk of a stream creates
    /// the streaming context and carries the 16-byte header in front of its
    /// cipher output; later chunks carry cipher output alone, so the header
    /// appears exactly once per stream. A chunk's output need not match its
    /// input byte-for-byte: only the concatenation over the whole stream is
    /// pinned, at finalize. A zero-length chunk is valid, advances no data
    /// and, on an already-open stream, emits nothing. On a primitive failure
    /// the direction resets to idle and the stream's progress is lost.
    pub fn encrypt_chunk(&mut self, chunk: &Vec<u8>) -> (r: Result<Vec<u8>, OpensslEncError>)
        requires
            old(self).wf(),
            chunk@.len() + 16 <= 0x7fff_ffff,
        ensures
            final(self).wf(),
            old(self).same_config(*final(self)),
            old(self).dec_unchanged(*final(self)),
            r matches Ok(out) ==> {
                &&& final(self).enc_active()
                &&& !final(self).enc_header_pending()
                &&& if old(self).enc_active() {
                    &&& final(self).enc_fed() == old(self).enc_fed() + chunk@
                    &&& final(self).enc_emitted() == old(self).enc_emitted() + out@
                    &&& out@.len() <= chunk@.len() + 16
                    &&& (chunk@.len() == 0 ==> out@.len() == 0)
                } else {
                    &&& final(self).enc_fed() == chunk@
                    &&& out@ == old(self).spec_header() + final(self).enc_emitted()
                    &&& out@.len() <= chunk@.len() + 32
                    &&& (chunk@.len() == 0 ==> out@ == old(self).spec_header())
                }
            },
            r matches Err(e) ==> e == OpensslEncError::PrimitiveFailure,
            r is Err ==> !final(self).enc_active() && final(self).enc_header_pending(),
    {
        let fresh_stream = self.add_magic_header;
        if fresh_stream {
            let c = match crypter_new(&self.cipher, &self.key, &self.iv, true) {
                Ok(c) => c,
                Err(e) => {
                    return Err(e);
                },
            };
            self.encrypter = Some(c);
        }
        let mut buf = zero_vec(chunk.len() + self.block_size);
        let upd = match &mut self.encrypter {
            Some(c) => crypter_update(c, chunk, &mut buf),
            None => Err(OpensslEncError::ContextMissing),
        };
        let n = match upd {
            Ok(n) => n,
            Err(e) => {
                self.encrypter = None;
                self.add_magic_header = true;
                return Err(e);
            },
        };
        buf.truncate(n);
        if fresh_stream {
            self.add_magic_header = false;
            let mut out = copy_range(&self.magic_header, 0, self.magic_header.len());
            proof {
                assert(old(self).spec_header().subrange(0, 16) =~= old(self).spec_header());
                assert(Seq::<u8>::empty() + buf@ =~= buf@);
                assert(old(self).spec_header() + Seq::<u8>::empty() =~= old(self).spec_header());
            }
            out.append(&mut buf);
            Ok(out)
        } else {
            Ok(buf)
        }
    }

    /// Finishes the encrypt direction's stream: flushes the padded final
    /// block (at most one block of output), destroys the context, and
    /// re-arms the header for the next stream, which reuses the same derived
    /// key and IV. Everything the stream emitted, this output included, is
    /// exactly the one-shot cipher output for everything it was fed, and
    /// decryption inverts it. Fails with a context-missing error when no
    /// stream is active.
    pub fn encrypter_finalize(&mut self) -> (r: Result<Vec<u8>, OpensslEncError>)
        requires
            old(self).wf(),
        ensures
            final(self).wf(),
            old(self).same_config(*final(self)),
            old(self).dec_unchanged(*final(self)),
            !final(self).enc_active() && final(self).enc_header_pending(),
            !old(self).enc_active() ==> r == Err::<Vec<u8>, OpensslEncError>(
                OpensslEncError::ContextMissing,
            ),
            old(self).enc_active() ==> (r matches Ok(out) ==> {
                &&& old(self).enc_emitted() + out@ == aes_cbc_encrypt(
                    old(self).spec_key(),
                    old(self).spec_iv(),
                    old(self).enc_fed(),
                )
                &&& aes_cbc_decrypt(
                    old(self).spec_key(),
                    old(self).spec_iv(),
                    old(self).enc_emitted() + out@,
                ) == Some(old(self).enc_fed())
                &&& out@.len() <= 16
                &&& old(self).enc_emitted().len() + out@.len() == old(self).enc_fed().len() + 16
                    - (old(self).enc_fed().len() % 16)
            }),
            old(self).enc_active() ==> (r matches Err(e) ==> e
                == OpensslEncError::PrimitiveFailure),
    {
        let mut buf = zero_vec(self.block_size);
        let res = match &mut self.encrypter {
            Some(c) => crypter_finalize(c, &mut buf),
            None => {
                return Err(OpensslEncError::ContextMissing);
            },
        };
        self.encrypter = None;
        self.add_magic_header = true;
        match res {
            Ok(n) => {
                buf.truncate(n);
                Ok(buf)
            },
            Err(e) => Err(e),
        }
    }

    /// Decrypts one chunk of a stream. The first chunk of a stream must hold
    /// the whole 16-byte header in front; the header is validated, stripped,
    /// and only the remainder fed to the fresh streaming context. Later
    /// chunks are fed whole. On any failure the direction resets to idle.
    pub fn decrypt_chunk(&mut self, chunk: &Vec<u8>) -> (r: Result<Vec<u8>, OpensslEncError>)
        requires
            old(self).wf(),
            chunk@.len() + 16 <= 0x7fff_ffff,
        ensures
            final(self).wf(),
            old(self).same_config(*final(self)),
            old(self).enc_unchanged(*final(self)),
            r matches Ok(out) ==> final(self).dec_active() && !final(self).dec_header_pending(),
            old(self).dec_active() ==> (r matches Ok(out) ==> {
                &&& final(self).dec_fed() == old(self).dec_fed() + chunk@
                &&& final(self).dec_emitted() == old(self).dec_emitted() + out@
                &&& out@.len() <= chunk@.len() + 16
                &&& (chunk@.len() == 0 ==> out@.len() == 0)
            }),
            old(self).dec_active() ==> (r matches Err(e) ==> e
                == OpensslEncError::PrimitiveFailure),
            !old(self).dec_active() ==> {
                &&& (chunk@.len() < 16 ==> r == Err::<Vec<u8>, OpensslEncError>(
                    OpensslEncError::HeaderFormatError,
                ))
                &&& (chunk@.len() >= 16 && chunk@.take(8) != magic_tag() ==> r == Err::<
                    Vec<u8>,
                    OpensslEncError,
                >(OpensslEncError::HeaderFormatError))
                &&& (r matches Ok(out) ==> {
                    &&& chunk@.len() >= 16
                    &&& chunk@.take(8) == magic_tag()
                    &&& final(self).dec_fed() == chunk@.skip(16)
                    &&& final(self).dec_emitted() == out@
                    &&& out@.len() <= chunk@.len()
                })
                &&& (chunk@.len() >= 16 && chunk@.take(8) == magic_tag() ==> (r matches Err(e)
                    ==> e == OpensslEncError::PrimitiveFailure))
            },
            r is Err ==> !final(self).dec_active() && final(self).dec_header_pending(),
    {
        let fresh_stream = self.remove_magic_header;
        let body: Vec<u8>;
        if fresh_stream {
            if chunk.len() < 16 {
                return Err(OpensslEncError::HeaderFormatError);
            }
            if !has_magic_tag(chunk) {
                return Err(OpensslEncError::HeaderFormatError);
            }
            let c = match crypter_new(&self.cipher, &self.key, &self.iv, false) {
                Ok(c) => c,
                Err(e) => {
                    return Err(e);
                },
            };
            self.decrypter = Some(c);
            self.remove_magic_header = false;
            body = copy_range(chunk, 16, chunk.len());
            proof {
                assert(body@ =~= chunk@.skip(16));
            }
        } else {
            body = copy_range(chunk, 0, chunk.len());
            proof {
                assert(body@ =~= chunk@);
            }
        }
        let mut buf = zero_vec(body.len() + self.block_size);
        let upd = match &mut self.decrypter {
            Some(c) => crypter_update(c, &body, &mut buf),
            None => Err(OpensslEncError::ContextMissing),
        };
        match upd {
            Ok(n) => {
                buf.truncate(n);
                proof {
                    assert(Seq::<u8>::empty() + body@ =~= body@);
                    assert(Seq::<u8>::empty() + buf@ =~= buf@);
                }
                Ok(buf)
            },
            Err(e) => {
                self.decrypter = None;
                self.remove_magic_header = true;
                Err(e)
            },
        }
    }

    /// Finishes the decrypt direction's stream: checks and strips the
    /// padding, returns any residual plaintext (at most one block), destroys
    /// the context, and re-arms the header expectation for the next stream.
    /// It succeeds
    /// exactly when the stream's fed bytes were a well-padded ciphertext
    /// under the session's key and IV, and then everything the stream
    /// emitted, this output included, is exactly that ciphertext's
    /// plaintext. Fails with a context-missing error when no stream is
    /// active.
    pub fn decrypter_finalize(&mut self) -> (r: Result<Vec<u8>, OpensslEncError>)
        requires
            old(self).wf(),
        ensures
            final(self).wf(),
            old(self).same_config(*final(self)),
            old(self).enc_unchanged(*final(self)),
            !final(self).dec_active() && final(self).dec_header_pending(),
            !old(self).dec_active() ==> r == Err::<Vec<u8>, OpensslEncError>(
                OpensslEncError::ContextMissing,
            ),
            old(self).dec_active() ==> {
                &&& (r matches Ok(out) ==> aes_cbc_decrypt(
                    old(self).spec_key(),
                    old(self).spec_iv(),
                    old(self).dec_fed(),
                ) == Some(old(self).dec_emitted() + out@))
                &&& (r matches Ok(out) ==> out@.len() <= 16)
                &&& (r is Err ==> r == Err::<Vec<u8>, OpensslEncError>(
                    OpensslEncError::PrimitiveFailure,
                ) && aes_cbc_decrypt(
                    old(self).spec_key(),
                    old(self).spec_iv(),
                    old(self).dec_fed(),
                ) is None)
            },
    {
        let mut buf = zero_vec(self.block_size);
        let res = match &mut self.decrypter {
            Some(c) => crypter_finalize(c, &mut buf),
            None => {
                return Err(OpensslEncError::ContextMissing);
            },
        };
        self.decrypter = None;
        self.remove_magic_header = true;
        match res {
            Ok(n) => {
                buf.truncate(n);
                Ok(buf)
            },
            Err(e) => Err(e),
        }
    }
}

} // verus!
