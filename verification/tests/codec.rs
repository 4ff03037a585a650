use aes::cipher::generic_array::GenericArray;
use aes::cipher::{BlockEncrypt, KeyInit};
use base64::Engine;
use jm_downloader::{decrypt_data, encrypt_data, md5_hex, sign, CryptoError};

#[test]
fn md5_hex_matches_known_vectors() {
    assert_eq!(md5_hex(""), "d41d8cd98f00b204e9800998ecf8427e");
    assert_eq!(md5_hex("abc"), "900150983cd24fb0d6963f7d28e17f72");
}

#[test]
fn md5_hex_matches_md5_crate() {
    let input = "268850birdview";
    assert_eq!(md5_hex(input), format!("{:x}", md5::compute(input)));
}

#[test]
fn sign_concatenates_timestamp_and_secret() {
    let token = sign(1700000000, "18comicAPP");
    assert_eq!(token, format!("{:x}", md5::compute("170000000018comicAPP")));
    assert_eq!(token.len(), 32);
}

#[test]
fn encrypt_decrypt_round_trips_ascii() {
    let ts = 1700000000;
    let cipher = encrypt_data(ts, "hello world");
    assert_eq!(decrypt_data(ts, &cipher).unwrap(), "hello world");
}

#[test]
fn encrypt_decrypt_round_trips_multibyte_text() {
    let ts = 42;
    let plain = "第1话 漫画下载 ✓";
    let cipher = encrypt_data(ts, plain);
    assert_eq!(decrypt_data(ts, &cipher).unwrap(), plain);
}

#[test]
fn encrypt_decrypt_round_trips_block_sized_text() {
    let ts = 7;
    let plain = "0123456789abcdef"; // exactly one block before padding
    let cipher = encrypt_data(ts, plain);
    assert_eq!(decrypt_data(ts, &cipher).unwrap(), plain);
}

#[test]
fn decrypt_rejects_malformed_base64() {
    assert_eq!(
        decrypt_data(1, "!!!not base64!!!"),
        Err(CryptoError::DecodeError)
    );
}

#[test]
fn decrypt_rejects_partial_blocks() {
    // five bytes of ciphertext cannot be a whole number of blocks
    let data = base64::engine::general_purpose::STANDARD.encode([1u8, 2, 3, 4, 5]);
    assert_eq!(decrypt_data(1, &data), Err(CryptoError::DecryptError));
}

#[test]
fn decrypt_rejects_empty_ciphertext() {
    assert_eq!(decrypt_data(1, ""), Err(CryptoError::DecryptError));
}

#[test]
fn decrypt_matches_manual_aes_pipeline() {

    let ts: u64 = 1234567;
    let key = format!("{:x}", md5::compute(format!("{ts}185Hcomic3PAPP7R")));
    let cipher = aes::Aes256::new(GenericArray::from_slice(key.as_bytes()));

    let mut padded = b"abc".to_vec();
    let pad = 16 - padded.len() % 16;
    padded.extend(std::iter::repeat(pad as u8).take(pad));
    let mut out = Vec::new();
    for chunk in padded.chunks(16) {
        let mut block = GenericArray::clone_from_slice(chunk);
        cipher.encrypt_block(&mut block);
        out.extend_from_slice(&block);
    }
    let data = base64::engine::general_purpose::STANDARD.encode(&out);

    assert_eq!(decrypt_data(ts, &data), Ok("abc".to_string()));
}

#[test]
fn decrypt_reports_invalid_utf8() {

    let ts: u64 = 99;
    let key = format!("{:x}", md5::compute(format!("{ts}185Hcomic3PAPP7R")));
    let cipher = aes::Aes256::new(GenericArray::from_slice(key.as_bytes()));

    // 0xFF bytes are not valid UTF-8; pad the 8-byte payload to one block
    let mut padded = vec![0xFFu8; 8];
    padded.extend(std::iter::repeat(8u8).take(8));
    let mut block = GenericArray::clone_from_slice(&padded);
    cipher.encrypt_block(&mut block);
    let data = base64::engine::general_purpose::STANDARD.encode(block);

    assert_eq!(decrypt_data(ts, &data), Err(CryptoError::EncodingError));
}

#[test]
fn ciphertext_differs_from_plaintext_encoding() {
    // the encrypt wrapper must actually encipher, not echo its input
    let ts = 5;
    let cipher = encrypt_data(ts, "0123456789abcdef");
    let raw = base64::engine::general_purpose::STANDARD
        .decode(&cipher)
        .unwrap();
    assert_eq!(raw.len(), 32);
    assert_ne!(&raw[..16], b"0123456789abcdef");
}
