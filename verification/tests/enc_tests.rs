use openssl_enc::{CipherSpec, OpensslEnc};

fn test_salt() -> Vec<u8> {
    vec![0x53, 0x61, 0x23, 0x11, 0x23, 0x56, 0x74, 0x12]
}

fn session(cipher: CipherSpec) -> OpensslEnc {
    OpensslEnc::new_with_salt("password".to_string(), cipher, 10000, &test_salt()).unwrap()
}

#[test]
fn can_encrypt_correctly() {
    let mut openssl_encrypt = session(CipherSpec::Aes256Cbc);
    let encrypted_data = openssl_encrypt.encrypt(&"some data".as_bytes().to_vec()).unwrap();
    assert_eq!(
        b"\x53\x61\x6c\x74\x65\x64\x5f\x5f\x53\x61\x23\x11\x23\x56\x74\x12\x72\x30\x32\x8f\xca\x92\x3c\x3b\x53\x99\x11\x99\x14\x32\x79\x78".to_vec(),
        encrypted_data
    );
}

#[test]
fn can_encrypt_128_correctly() {
    let mut openssl_encrypt = session(CipherSpec::Aes128Cbc);
    let encrypted_data = openssl_encrypt.encrypt(&"some data".as_bytes().to_vec()).unwrap();
    assert_eq!(
        b"\x53\x61\x6C\x74\x65\x64\x5F\x5F\x53\x61\x23\x11\x23\x56\x74\x12\x68\x4B\xA4\xA2\x6F\xB6\x96\x91\x11\x64\x32\x21\xF9\x2A\xAB\x92".to_vec(),
        encrypted_data
    );
}

#[test]
fn can_encrypt_chunks_correctly() {
    let mut openssl_encrypt = session(CipherSpec::Aes256Cbc);
    let encrypted_chunk1 = openssl_encrypt.encrypt_chunk(&"some".as_bytes().to_vec()).unwrap();
    let encrypted_chunk2 = openssl_encrypt.encrypt_chunk(&" ".as_bytes().to_vec()).unwrap();
    let encrypted_chunk3 = openssl_encrypt.encrypt_chunk(&"data".as_bytes().to_vec()).unwrap();
    let encrypted_final_chunk = openssl_encrypt.encrypter_finalize().unwrap();
    assert_eq!(
        b"\x53\x61\x6c\x74\x65\x64\x5f\x5f\x53\x61\x23\x11\x23\x56\x74\x12\x72\x30\x32\x8f\xca\x92\x3c\x3b\x53\x99\x11\x99\x14\x32\x79\x78".to_vec(),
        [
            &encrypted_chunk1[..],
            &encrypted_chunk2[..],
            &encrypted_chunk3[..],
            &encrypted_final_chunk[..]
        ]
        .concat()
    );
}

#[test]
fn can_encrypt_and_decrypt_chunks_correctly() {
    let mut openssl_encrypt = session(CipherSpec::Aes256Cbc);
    let encrypted_chunk1 = openssl_encrypt.encrypt_chunk(&"some".as_bytes().to_vec()).unwrap();
    let encrypted_chunk2 = openssl_encrypt.encrypt_chunk(&" ".as_bytes().to_vec()).unwrap();
    let encrypted_chunk3 = openssl_encrypt.encrypt_chunk(&"data".as_bytes().to_vec()).unwrap();
    let encrypted_final_chunk = openssl_encrypt.encrypter_finalize().unwrap();
    let encrypted_data = [
        &encrypted_chunk1[..],
        &encrypted_chunk2[..],
        &encrypted_chunk3[..],
        &encrypted_final_chunk[..],
    ]
    .concat();
    let decrypted_data = openssl_encrypt.decrypt(&encrypted_data).unwrap();
    assert_eq!(b"some data", &decrypted_data[..]);
    assert_eq!(
        b"\x53\x61\x6c\x74\x65\x64\x5f\x5f\x53\x61\x23\x11\x23\x56\x74\x12\x72\x30\x32\x8f\xca\x92\x3c\x3b\x53\x99\x11\x99\x14\x32\x79\x78".to_vec(),
        encrypted_data
    );
}

#[test]
fn can_encrypt_and_decrypt_correctly() {
    let mut openssl_encrypt = session(CipherSpec::Aes256Cbc);
    let encrypted_data = openssl_encrypt.encrypt(&"some data".as_bytes().to_vec()).unwrap();
    let decrypted_data = openssl_encrypt.decrypt(&encrypted_data).unwrap();
    assert_eq!(b"some data", &decrypted_data[..]);
}

#[test]
fn can_decrypt_correctly() {
    let mut openssl_encrypt = session(CipherSpec::Aes256Cbc);
    let encrypted_data =
        b"\x53\x61\x6c\x74\x65\x64\x5f\x5f\x53\x61\x23\x11\x23\x56\x74\x12\x72\x30\x32\x8f\xca\x92\x3c\x3b\x53\x99\x11\x99\x14\x32\x79\x78".to_vec();
    let decrypted_data = openssl_encrypt.decrypt(&encrypted_data).unwrap();

    assert_eq!(b"some data", &decrypted_data[..]);
}

#[test]
fn can_decrypt_128_correctly() {
    let mut openssl_encrypt = session(CipherSpec::Aes128Cbc);
    let encrypted_data =
        b"\x53\x61\x6C\x74\x65\x64\x5F\x5F\x53\x61\x23\x11\x23\x56\x74\x12\x68\x4B\xA4\xA2\x6F\xB6\x96\x91\x11\x64\x32\x21\xF9\x2A\xAB\x92".to_vec();
    let decrypted_data = openssl_encrypt.decrypt(&encrypted_data).unwrap();

    assert_eq!(b"some data", &decrypted_data[..]);
}

#[test]
fn can_decrypt_chunks_correctly() {
    let mut openssl_encrypt = session(CipherSpec::Aes256Cbc);
    let decrypted_chunk1 = openssl_encrypt
        .decrypt_chunk(
            &b"\x53\x61\x6c\x74\x65\x64\x5f\x5f\x53\x61\x23\x11\x23\x56\x74\x12\x72".to_vec(),
        )
        .unwrap();
    let decrypted_chunk2 = openssl_encrypt
        .decrypt_chunk(&b"\x30\x32\x8f\xca\x92\x3c\x3b\x53\x99\x11".to_vec())
        .unwrap();
    let decrypted_chunk3 = openssl_encrypt
        .decrypt_chunk(&b"\x99\x14\x32\x79\x78".to_vec())
        .unwrap();
    let decrypted_final_chunk = openssl_encrypt.decrypter_finalize().unwrap();
    assert_eq!(
        "some data".as_bytes().to_vec(),
        [
            &decrypted_chunk1[..],
            &decrypted_chunk2[..],
            &decrypted_chunk3[..],
            &decrypted_final_chunk[..]
        ]
        .concat()
    );
}
