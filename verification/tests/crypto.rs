use tkm::crypto::aead::{decrypt, encrypt, AeadError, VaultFile};
use tkm::crypto::kdf::{derive_key, generate_salt, zeroize_key, SALT_LEN};

#[test]
fn test_encrypt_decrypt_roundtrip() {
    let key = [42u8; 32];
    let salt = [1u8; 32];
    let plaintext = b"hello world, this is a secret token";

    let vault = encrypt(&key, &salt, plaintext).unwrap();
    let decrypted = decrypt(&key, &vault).unwrap();

    assert_eq!(decrypted, plaintext);
}

#[test]
fn test_wrong_key_fails() {
    let key = [42u8; 32];
    let wrong_key = [99u8; 32];
    let salt = [1u8; 32];
    let plaintext = b"secret";

    let vault = encrypt(&key, &salt, plaintext).unwrap();
    let result = decrypt(&wrong_key, &vault);

    assert!(result.is_err());
}

#[test]
fn test_vault_file_serialization_roundtrip() {
    let key = [42u8; 32];
    let salt = [1u8; 32];
    let plaintext = b"roundtrip test";

    let vault = encrypt(&key, &salt, plaintext).unwrap();
    let bytes = vault.to_bytes();
    let restored = VaultFile::from_bytes(&bytes).unwrap();

    assert_eq!(restored.version, vault.version);
    assert_eq!(restored.salt, vault.salt);
    assert_eq!(restored.nonce, vault.nonce);
    assert_eq!(restored.ciphertext, vault.ciphertext);

    let decrypted = decrypt(&key, &restored).unwrap();
    assert_eq!(decrypted, plaintext);
}

#[test]
fn test_invalid_vault_too_short() {
    let result = VaultFile::from_bytes(&[0u8; 10]);
    assert!(result.is_err());
}

#[test]
fn test_derive_key_deterministic() {
    let password = "test-password";
    let salt = [42u8; SALT_LEN];
    let key1 = derive_key(password, &salt).unwrap();
    let key2 = derive_key(password, &salt).unwrap();
    assert_eq!(key1, key2);
}

#[test]
fn test_different_salt_different_key() {
    let password = "test-password";
    let salt1 = [1u8; SALT_LEN];
    let salt2 = [2u8; SALT_LEN];
    let key1 = derive_key(password, &salt1).unwrap();
    let key2 = derive_key(password, &salt2).unwrap();
    assert_ne!(key1, key2);
}

#[test]
fn test_different_password_different_key() {
    let salt = [42u8; SALT_LEN];
    let key1 = derive_key("password1", &salt).unwrap();
    let key2 = derive_key("password2", &salt).unwrap();
    assert_ne!(key1, key2);
}

#[test]
fn test_generate_salt_randomness() {
    let s1 = generate_salt();
    let s2 = generate_salt();
    assert_ne!(s1, s2);
}

#[test]
fn vault_file_layout() {
    let f = VaultFile { version: 1, salt: [7u8; 32], nonce: [9u8; 12], ciphertext: vec![0xAA; 16] };
    let b = f.to_bytes();
    assert_eq!(b.len(), 4 + 32 + 12 + 16);
    assert_eq!(&b[0..4], &[1, 0, 0, 0]);
    assert_eq!(&b[4..36], &[7u8; 32]);
    assert_eq!(&b[36..48], &[9u8; 12]);
    assert_eq!(&b[48..], &[0xAA; 16]);
}

#[test]
fn vault_file_errors() {
    let short = VaultFile::from_bytes(&[0u8; 63]).unwrap_err();
    assert_eq!(short.message(), "invalid format: vault file too short");
    let mut data = vec![0u8; 64];
    data[0] = 2;
    let bad = VaultFile::from_bytes(&data).unwrap_err();
    assert_eq!(bad.message(), "invalid format: unsupported vault version: 2");
    data[0] = 1;
    let ok = VaultFile::from_bytes(&data).unwrap();
    assert_eq!(ok.version, 1);
    assert_eq!(ok.ciphertext.len(), 16);
}

#[test]
fn aead_error_messages() {
    assert_eq!(AeadError::DecryptionFailed.message(), "decryption failed: wrong password or corrupted vault");
    assert_eq!(AeadError::EncryptionFailed("x".to_string()).message(), "encryption failed: x");
    assert_eq!(AeadError::InvalidFormat("y".to_string()).message(), "invalid format: y");
}

#[test]
fn encrypt_records_salt_and_tag() {
    let key = [5u8; 32];
    let salt = [6u8; 32];
    let f = encrypt(&key, &salt, b"abc").unwrap();
    assert_eq!(f.version, 1);
    assert_eq!(f.salt, salt);
    assert_eq!(f.ciphertext.len(), 3 + 16);
    assert_ne!(&f.ciphertext[..3], b"abc");
    let mut tampered = f;
    tampered.ciphertext[0] ^= 1;
    let e = decrypt(&key, &tampered).unwrap_err();
    assert_eq!(e.message(), "decryption failed: wrong password or corrupted vault");
}

#[test]
fn zeroize_wipes_key() {
    let mut key = [0xFFu8; 32];
    zeroize_key(&mut key);
    assert_eq!(key, [0u8; 32]);
}
