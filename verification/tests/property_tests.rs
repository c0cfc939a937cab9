use openssl_enc::errors::OpensslEncError;
use openssl_enc::header::{decode_header, encode_header, has_magic_tag, magic_tag_bytes};
use openssl_enc::laws::{decrypt_chunked, encrypt_chunked, round_trip, round_trip_chunked};
use openssl_enc::{CipherSpec, OpensslEnc};

fn test_salt() -> Vec<u8> {
    vec![0x53, 0x61, 0x23, 0x11, 0x23, 0x56, 0x74, 0x12]
}

fn session(cipher: CipherSpec) -> OpensslEnc {
    OpensslEnc::new_with_salt("password".to_string(), cipher, 10000, &test_salt()).unwrap()
}

const KNOWN_256: &[u8] =
    b"\x53\x61\x6c\x74\x65\x64\x5f\x5f\x53\x61\x23\x11\x23\x56\x74\x12\x72\x30\x32\x8f\xca\x92\x3c\x3b\x53\x99\x11\x99\x14\x32\x79\x78";
const KNOWN_128: &[u8] =
    b"\x53\x61\x6C\x74\x65\x64\x5F\x5F\x53\x61\x23\x11\x23\x56\x74\x12\x68\x4B\xA4\xA2\x6F\xB6\x96\x91\x11\x64\x32\x21\xF9\x2A\xAB\x92";

#[test]
fn round_trip_returns_the_plaintext() {
    let mut s = session(CipherSpec::Aes256Cbc);
    let data = b"arbitrary bytes \x00\x01\x02 of any shape".to_vec();
    let p = round_trip(&mut s, &data).unwrap();
    assert_eq!(data, p);
}

#[test]
fn round_trip_with_random_salt() {
    let mut s = OpensslEnc::new("another password".to_string(), CipherSpec::Aes192Cbc, 3).unwrap();
    let data = b"fresh salt every session".to_vec();
    let c = s.encrypt(&data).unwrap();
    assert_eq!(&c[0..8], b"Salted__");
    let p = s.decrypt(&c).unwrap();
    assert_eq!(data, p);
}

#[test]
fn chunked_encryption_matches_one_shot() {
    let mut s = session(CipherSpec::Aes256Cbc);
    let chunks: Vec<Vec<u8>> = vec![
        b"so".to_vec(),
        b"".to_vec(),
        b"me d".to_vec(),
        b"ata".to_vec(),
    ];
    let chunked = encrypt_chunked(&mut s, &chunks).unwrap();
    let one_shot = s.encrypt(&b"some data".to_vec()).unwrap();
    assert_eq!(chunked, one_shot);
    assert_eq!(chunked, KNOWN_256.to_vec());
}

#[test]
fn chunked_decryption_matches_one_shot() {
    let mut s = session(CipherSpec::Aes256Cbc);
    let chunks: Vec<Vec<u8>> = vec![
        KNOWN_256[0..20].to_vec(),
        KNOWN_256[20..20].to_vec(),
        KNOWN_256[20..27].to_vec(),
        KNOWN_256[27..32].to_vec(),
    ];
    let chunked = decrypt_chunked(&mut s, &chunks).unwrap();
    let one_shot = s.decrypt(&KNOWN_256.to_vec()).unwrap();
    assert_eq!(chunked, one_shot);
    assert_eq!(chunked, b"some data".to_vec());
}

#[test]
fn header_appears_once_per_stream() {
    let mut s = session(CipherSpec::Aes256Cbc);
    let first = s.encrypt_chunk(&b"some ".to_vec()).unwrap();
    assert_eq!(&first[0..8], b"Salted__");
    assert_eq!(&first[8..16], &test_salt()[..]);
    let second = s.encrypt_chunk(&b"data".to_vec()).unwrap();
    let fin = s.encrypter_finalize().unwrap();
    let stream = [&first[..], &second[..], &fin[..]].concat();
    // the 16-byte header opens the stream and never recurs
    assert_eq!(&stream[0..16], &KNOWN_256[0..16]);
    let tag_positions = stream
        .windows(8)
        .enumerate()
        .filter(|(_, w)| *w == b"Salted__")
        .count();
    assert_eq!(tag_positions, 1);
    // a second stream on the same session gets a fresh header again
    let next = s.encrypt_chunk(&b"more".to_vec()).unwrap();
    assert_eq!(&next[0..16], &KNOWN_256[0..16]);
    s.encrypter_finalize().unwrap();
}

#[test]
fn fixed_salt_makes_output_reproducible() {
    let mut s1 = session(CipherSpec::Aes256Cbc);
    let mut s2 = session(CipherSpec::Aes256Cbc);
    let data = b"determinism".to_vec();
    assert_eq!(s1.encrypt(&data).unwrap(), s2.encrypt(&data).unwrap());
    // and a repeated stream on one session reproduces itself too
    assert_eq!(s1.encrypt(&data).unwrap(), s1.encrypt(&data).unwrap());
}

#[test]
fn zero_iterations_fail_derivation() {
    let r = OpensslEnc::new_with_salt("pw".to_string(), CipherSpec::Aes256Cbc, 0, &test_salt());
    assert!(matches!(r, Err(OpensslEncError::DerivationFailure)));
    let r = OpensslEnc::new("pw".to_string(), CipherSpec::Aes256Cbc, 0);
    assert!(matches!(r, Err(OpensslEncError::DerivationFailure)));
}

#[test]
fn one_iteration_succeeds() {
    let s = OpensslEnc::new_with_salt("pw".to_string(), CipherSpec::Aes256Cbc, 1, &test_salt());
    assert!(s.is_ok());
}

#[test]
fn wrong_salt_length_fails_derivation() {
    let r = OpensslEnc::new_with_salt(
        "pw".to_string(),
        CipherSpec::Aes256Cbc,
        10000,
        &vec![1, 2, 3],
    );
    assert!(matches!(r, Err(OpensslEncError::DerivationFailure)));
}

#[test]
fn cipher_sizes_differ() {
    assert_eq!(CipherSpec::Aes128Cbc.key_len(), 16);
    assert_eq!(CipherSpec::Aes192Cbc.key_len(), 24);
    assert_eq!(CipherSpec::Aes256Cbc.key_len(), 32);
    assert_eq!(CipherSpec::Aes128Cbc.iv_len(), 16);
    assert_eq!(CipherSpec::Aes128Cbc.block_size(), 16);
    // same plaintext, password and salt: the variants' outputs differ
    assert_ne!(KNOWN_128.to_vec(), KNOWN_256.to_vec());
    let mut s128 = session(CipherSpec::Aes128Cbc);
    let mut s256 = session(CipherSpec::Aes256Cbc);
    let data = b"some data".to_vec();
    assert_ne!(s128.encrypt(&data).unwrap(), s256.encrypt(&data).unwrap());
}

#[test]
fn finalize_without_chunk_is_context_missing() {
    let mut s = session(CipherSpec::Aes256Cbc);
    assert_eq!(s.encrypter_finalize().unwrap_err(), OpensslEncError::ContextMissing);
    assert_eq!(s.decrypter_finalize().unwrap_err(), OpensslEncError::ContextMissing);
    // finalize consumes the context: a second finalize misses it again
    s.encrypt_chunk(&b"x".to_vec()).unwrap();
    s.encrypter_finalize().unwrap();
    assert_eq!(s.encrypter_finalize().unwrap_err(), OpensslEncError::ContextMissing);
}

#[test]
fn short_or_untagged_input_is_header_format_error() {
    let mut s = session(CipherSpec::Aes256Cbc);
    assert_eq!(
        s.decrypt(&b"short".to_vec()).unwrap_err(),
        OpensslEncError::HeaderFormatError
    );
    let mut bad_tag = KNOWN_256.to_vec();
    bad_tag[0] ^= 0xff;
    assert_eq!(s.decrypt(&bad_tag).unwrap_err(), OpensslEncError::HeaderFormatError);
    assert_eq!(
        s.decrypt_chunk(&b"\x53\x61\x6c".to_vec()).unwrap_err(),
        OpensslEncError::HeaderFormatError
    );
    assert_eq!(s.decrypt_chunk(&bad_tag).unwrap_err(), OpensslEncError::HeaderFormatError);
}

#[test]
fn corrupted_ciphertext_is_primitive_failure() {
    let mut s = session(CipherSpec::Aes256Cbc);
    let mut corrupted = KNOWN_256.to_vec();
    let last = corrupted.len() - 1;
    corrupted[last] ^= 0xff;
    assert_eq!(s.decrypt(&corrupted).unwrap_err(), OpensslEncError::PrimitiveFailure);
    // the streaming path reports the bad padding at finalize
    s.decrypt_chunk(&corrupted).unwrap();
    assert_eq!(s.decrypter_finalize().unwrap_err(), OpensslEncError::PrimitiveFailure);
}

#[test]
fn empty_chunk_is_valid() {
    let mut s = session(CipherSpec::Aes256Cbc);
    let first = s.encrypt_chunk(&Vec::new()).unwrap();
    assert_eq!(first, KNOWN_256[0..16].to_vec());
    s.encrypt_chunk(&b"some data".to_vec()).unwrap();
    // an empty chunk on an active stream advances no data and emits nothing
    assert_eq!(s.encrypt_chunk(&Vec::new()).unwrap(), Vec::<u8>::new());
    let fin = s.encrypter_finalize().unwrap();
    assert!(!fin.is_empty());
    assert!(fin.len() <= 16);
}

#[test]
fn chunked_stream_round_trips_through_one_shot_decrypt() {
    let mut s = session(CipherSpec::Aes256Cbc);
    let chunks: Vec<Vec<u8>> = vec![b"some".to_vec(), b" ".to_vec(), b"data".to_vec()];
    let p = round_trip_chunked(&mut s, &chunks).unwrap();
    assert_eq!(p, b"some data".to_vec());
}

#[test]
fn empty_plaintext_round_trips() {
    let mut s = session(CipherSpec::Aes256Cbc);
    let c = s.encrypt(&Vec::new()).unwrap();
    assert_eq!(c.len(), 32);
    assert_eq!(s.decrypt(&c).unwrap(), Vec::<u8>::new());
}

#[test]
fn header_codec_encodes_and_decodes() {
    assert_eq!(magic_tag_bytes(), b"Salted__".to_vec());
    let header = encode_header(&test_salt());
    assert_eq!(header, KNOWN_256[0..16].to_vec());
    assert!(has_magic_tag(&header));
    assert_eq!(decode_header(&header).unwrap(), test_salt());
    assert_eq!(
        decode_header(&b"Salted_X01234567".to_vec()).unwrap_err(),
        OpensslEncError::HeaderFormatError
    );
    assert_eq!(
        decode_header(&b"Salted__".to_vec()).unwrap_err(),
        OpensslEncError::HeaderFormatError
    );
}

#[test]
fn error_messages_name_the_condition() {
    assert_eq!(OpensslEncError::DerivationFailure.message(), "key derivation failed");
    assert_eq!(OpensslEncError::ContextMissing.message(), "no active cipher context");
    assert_eq!(OpensslEncError::PrimitiveFailure.message(), "cipher primitive failed");
    assert_eq!(OpensslEncError::HeaderFormatError.message(), "malformed salted header");
}

#[test]
fn directions_interleave_independently() {
    let mut s = session(CipherSpec::Aes256Cbc);
    let e1 = s.encrypt_chunk(&b"some ".to_vec()).unwrap();
    let d1 = s.decrypt_chunk(&KNOWN_256[0..20].to_vec()).unwrap();
    let e2 = s.encrypt_chunk(&b"data".to_vec()).unwrap();
    let d2 = s.decrypt_chunk(&KNOWN_256[20..32].to_vec()).unwrap();
    let ef = s.encrypter_finalize().unwrap();
    let df = s.decrypter_finalize().unwrap();
    assert_eq!([&e1[..], &e2[..], &ef[..]].concat(), KNOWN_256.to_vec());
    assert_eq!([&d1[..], &d2[..], &df[..]].concat(), b"some data".to_vec());
}
