use cognition_daemon::crypto::{decrypt, derive_key, encrypt, encrypt_with, EncryptedBlob};
use cognition_daemon::error::DaemonError;

fn internal(e: DaemonError) -> String {
    match e {
        DaemonError::Internal(m) => m,
        other => panic!("unexpected error {other:?}"),
    }
}

#[test]
fn decrypt_inverts_encrypt() {
    let blob = encrypt("correct horse", b"{\"projects\":[]}").expect("encrypts");
    assert_eq!(decrypt("correct horse", &blob).expect("decrypts"), b"{\"projects\":[]}".to_vec());
}

#[test]
fn encryption_draws_fresh_salt_and_nonce() {
    let a = encrypt("pw", b"same").unwrap();
    let b = encrypt("pw", b"same").unwrap();
    assert_ne!((a.salt.clone(), a.nonce.clone()), (b.salt.clone(), b.nonce.clone()));
    assert_eq!(a.salt.len(), 24);
    assert_eq!(a.nonce.len(), 16);
}

#[test]
fn fixed_salt_and_nonce_give_base64_fields() {
    let blob = encrypt_with("pw", b"abc", &[0u8; 16], &[1u8; 12]).unwrap();
    assert_eq!(blob.salt, "AAAAAAAAAAAAAAAAAAAAAA==");
    assert_eq!(blob.nonce, "AQEBAQEBAQEBAQEB");
    // AES-GCM: ciphertext is plaintext length plus a 16-byte tag, base64 encoded.
    assert_eq!(blob.ciphertext.len(), 28);
    assert_ne!(blob.ciphertext, "abc");
    let again = encrypt_with("pw", b"abc", &[0u8; 16], &[1u8; 12]).unwrap();
    assert_eq!(blob.ciphertext, again.ciphertext);
    assert_eq!(decrypt("pw", &blob).unwrap(), b"abc".to_vec());
}

#[test]
fn wrong_passphrase_is_rejected() {
    let blob = encrypt("right", b"secret").unwrap();
    let e = decrypt("wrong", &blob).unwrap_err();
    assert_eq!(internal(e), "decryption failed: wrong passphrase or corrupted data");
}

#[test]
fn malformed_blobs_give_their_errors() {
    let good = encrypt("pw", b"x").unwrap();
    let bad_salt = EncryptedBlob { salt: "!!".to_string(), ..good.clone() };
    assert_eq!(internal(decrypt("pw", &bad_salt).unwrap_err()), "invalid salt encoding");
    let bad_nonce = EncryptedBlob { nonce: "%".to_string(), ..good.clone() };
    assert_eq!(internal(decrypt("pw", &bad_nonce).unwrap_err()), "invalid nonce encoding");
    let bad_ct = EncryptedBlob { ciphertext: "*".to_string(), ..good.clone() };
    assert_eq!(internal(decrypt("pw", &bad_ct).unwrap_err()), "invalid ciphertext encoding");
    let short_nonce = EncryptedBlob { nonce: "AAAA".to_string(), ..good.clone() };
    assert_eq!(internal(decrypt("pw", &short_nonce).unwrap_err()), "invalid nonce length");
    let short_salt = EncryptedBlob { salt: "AAAA".to_string(), ..good };
    assert!(internal(decrypt("pw", &short_salt).unwrap_err()).starts_with("key derivation: "));
}

#[test]
fn key_derivation_is_deterministic() {
    let a = derive_key("pw", &[7u8; 16]).unwrap();
    let b = derive_key("pw", &[7u8; 16]).unwrap();
    let c = derive_key("pw2", &[7u8; 16]).unwrap();
    assert_eq!(a.len(), 32);
    assert_eq!(a, b);
    assert_ne!(a, c);
    assert!(internal(derive_key("pw", &[1u8; 2]).unwrap_err()).starts_with("key derivation: "));
}
