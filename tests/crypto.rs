use burn_after_read::crypto::{
    decrypt, derive_key, encrypt, encrypt_with_nonce, CipherError, EncryptData, NONCE_LEN, TAG_LEN,
};

#[test]
fn test_encrypt_decrypt() {
    let tests = vec![
        (
            "https://docs.rs/aes-gcm/0.10.3/aes_gcm/#in-place-usage-eliminates-alloc-requirement",
            "test",
        ),
        ("https://docs.rs/aes-gcm/latest/aes_gcm/#usage", "foo"),
        ("abc", "bar"),
    ];
    for (plaintext, key) in tests {
        let got_encryption = encrypt(plaintext, key).expect("encryption failed");
        let got_decryption = decrypt(&got_encryption, key).expect("decryption failed");

        assert_eq!(plaintext, String::from_utf8(got_decryption).unwrap());

        println!("ciph: {:?}", got_encryption.encrypted_text);
        println!("nonce: {:?}", got_encryption.nonce);
    }
}

#[test]
fn derive_key_is_sha256_of_passphrase() {
    let key = derive_key("hunter2");
    assert_eq!(
        key,
        vec![
            245, 47, 189, 50, 178, 179, 184, 111, 248, 142, 246, 196, 144, 98, 130, 133, 244, 130,
            175, 21, 221, 203, 41, 84, 31, 148, 188, 245, 38, 163, 246, 199
        ]
    );
}

#[test]
fn encrypt_with_nonce_matches_known_vector() {
    let nonce: Vec<u8> = (0u8..12).collect();
    let data = encrypt_with_nonce("https://example.com/secret", "hunter2", nonce.clone()).unwrap();
    assert_eq!(data.nonce, nonce);
    assert_eq!(
        data.encrypted_text,
        vec![
            223, 248, 190, 84, 3, 202, 192, 94, 160, 228, 72, 85, 185, 103, 0, 195, 124, 45, 232,
            250, 15, 108, 10, 215, 197, 196, 253, 93, 110, 222, 167, 96, 76, 167, 176, 51, 67, 36,
            38, 19, 99, 155
        ]
    );
    assert_eq!(data.encrypted_text.len(), "https://example.com/secret".len() + TAG_LEN);
}

#[test]
fn encrypt_with_nonce_rejects_wrong_nonce_length() {
    let r = encrypt_with_nonce("abc", "k", vec![0u8; 8]);
    assert!(matches!(r, Err(CipherError::InvalidNonceLength)));
}

#[test]
fn encrypt_twice_gives_different_nonces_and_cipher_texts() {
    let a = encrypt("same plain text", "same passphrase").unwrap();
    let b = encrypt("same plain text", "same passphrase").unwrap();
    assert_eq!(a.nonce.len(), NONCE_LEN);
    assert_eq!(b.nonce.len(), NONCE_LEN);
    assert_ne!(a.nonce, b.nonce);
    assert_ne!(a.encrypted_text, b.encrypted_text);
}

#[test]
fn encrypt_empty_plain_text_gives_tag_only() {
    let data = encrypt("", "k").unwrap();
    assert_eq!(data.encrypted_text.len(), TAG_LEN);
    assert_eq!(decrypt(&data, "k").unwrap(), Vec::<u8>::new());
}

#[test]
fn decrypt_with_wrong_key_fails_authentication() {
    let data = encrypt("abc", "right").unwrap();
    assert!(matches!(decrypt(&data, "wrong"), Err(CipherError::AuthenticationFailed)));
}

#[test]
fn decrypt_rejects_wrong_nonce_length() {
    let mut data = encrypt("abc", "k").unwrap();
    data.nonce.pop();
    assert!(matches!(decrypt(&data, "k"), Err(CipherError::InvalidNonceLength)));
}

#[test]
fn decrypt_of_known_vector() {
    let data = EncryptData {
        nonce: (0u8..12).collect(),
        encrypted_text: vec![
            223, 248, 190, 84, 3, 202, 192, 94, 160, 228, 72, 85, 185, 103, 0, 195, 124, 45, 232,
            250, 15, 108, 10, 215, 197, 196, 253, 93, 110, 222, 167, 96, 76, 167, 176, 51, 67, 36,
            38, 19, 99, 155,
        ],
    };
    assert_eq!(decrypt(&data, "hunter2").unwrap(), b"https://example.com/secret".to_vec());
}
