use tkm::model::token::VaultData;
use tkm::storage::encrypted_file::{open_vault, parse_salt, rekey_vault, EncryptedFileBackend};
use tkm::storage::keychain::{KeychainBackend, KeyringOutcome};

#[test]
fn file_backend_paths() {
    let b = EncryptedFileBackend::new("/home/u/.tkm");
    assert_eq!(b.vault_path(), "/home/u/.tkm/vault.enc");
    assert_eq!(b.salt_path(), "/home/u/.tkm/salt");
    assert!(b.needs_unlock());
    assert_eq!(b.name(), "encrypted_file");
    let c = EncryptedFileBackend::new("/home/u/.tkm/");
    assert_eq!(c.vault_path(), "/home/u/.tkm/vault.enc");
}

#[test]
fn salt_file_must_hold_32_bytes() {
    let ok = parse_salt(&[3u8; 32]).unwrap();
    assert_eq!(ok, [3u8; 32]);
    let err = parse_salt(&[3u8; 31]).unwrap_err();
    assert_eq!(err, "invalid salt file: expected 32 bytes, got 31");
    let err = parse_salt(&[]).unwrap_err();
    assert_eq!(err, "invalid salt file: expected 32 bytes, got 0");
}

#[test]
fn locked_backend_refuses() {
    let mut b = EncryptedFileBackend::new("d");
    let locked = "vault is locked — call unlock first";
    assert_eq!(b.get("github", "token").unwrap_err(), locked);
    assert_eq!(b.set("github", "token", "v").unwrap_err(), locked);
    assert_eq!(b.delete("github", "token").unwrap_err(), locked);
    assert_eq!(b.seal_vault(&[0u8; 32], b"{}").unwrap_err(), locked);
    assert!(b.vault().is_none());
}

#[test]
fn unlocked_backend_reads_what_it_stores() {
    let mut b = EncryptedFileBackend::new("d");
    b.unlock_with(VaultData::new(), [1u8; 32]);
    assert!(!b.needs_unlock());
    b.set("github", "token", "ghp_1").unwrap();
    assert_eq!(b.get("github", "token").unwrap(), "ghp_1");
    assert_eq!(b.get("github", "other").unwrap_err(), "no token found for github:other in vault");
    assert_eq!(b.delete("github", "other").unwrap_err(), "no token found for github:other in vault");
    b.delete("github", "token").unwrap();
    assert!(b.get("github", "token").is_err());
    assert_eq!(b.vault().unwrap().entries.len(), 0);
    b.lock();
    assert!(b.needs_unlock());
}

#[test]
fn init_refuses_existing_vault() {
    let mut b = EncryptedFileBackend::new("/x");
    let err = b.init(true, "pw", &[0u8; 32]).unwrap_err();
    assert_eq!(err, "vault already exists at /x/vault.enc");
    assert!(b.needs_unlock());
}

#[test]
fn sealed_vault_opens_with_its_password() {
    let salt = [8u8; 32];
    let mut b = EncryptedFileBackend::new("/x");
    b.init(false, "master", &salt).unwrap();
    assert_eq!(b.vault().unwrap().entries.len(), 0);
    let bytes = b.seal_vault(&salt, b"{\"entries\":[]}").unwrap();
    assert_eq!(bytes.len(), 4 + 32 + 12 + 14 + 16);
    let (key, plain) = open_vault("master", &salt, &bytes).unwrap();
    assert_eq!(plain, b"{\"entries\":[]}");
    let mut c = EncryptedFileBackend::new("/x");
    c.unlock_with(VaultData::new(), key);
    let again = c.seal_vault(&salt, b"x").unwrap();
    let (_, plain2) = open_vault("master", &salt, &again).unwrap();
    assert_eq!(plain2, b"x");
}

#[test]
fn wrong_password_does_not_open() {
    let salt = [8u8; 32];
    let mut b = EncryptedFileBackend::new("/x");
    b.unlock_with(VaultData::new(), [0u8; 32]);
    let bytes = b.seal_vault(&salt, b"data").unwrap();
    let err = open_vault("guess", &salt, &bytes).unwrap_err();
    assert_eq!(err, "decryption failed: wrong password or corrupted vault");
    let err = open_vault("guess", &salt, &[0u8; 5]).unwrap_err();
    assert_eq!(err, "invalid format: vault file too short");
}

#[test]
fn keychain_names_and_outcomes() {
    let mut kc = KeychainBackend::new();
    assert_eq!(KeychainBackend::keyring_service("github"), "tkm:github");
    assert_eq!(kc.name(), "keychain");
    assert!(!kc.needs_unlock());
    assert_eq!(kc.get_result("gh", "token", KeyringOutcome::Done("s".to_string())).unwrap(), "s");
    assert_eq!(
        kc.get_result("gh", "token", KeyringOutcome::NoEntry).unwrap_err(),
        "no token found for gh:token in keychain"
    );
    assert_eq!(
        kc.get_result("gh", "token", KeyringOutcome::Failed).unwrap_err(),
        "failed to read gh:token from keychain"
    );
    assert_eq!(
        kc.get_result("gh", "token", KeyringOutcome::EntryFailed).unwrap_err(),
        "failed to create keyring entry"
    );
    assert!(kc.set_result("gh", "token", KeyringOutcome::Done(())).is_ok());
    assert_eq!(
        kc.set_result("gh", "token", KeyringOutcome::Failed).unwrap_err(),
        "failed to store gh:token in keychain"
    );
    assert!(kc.delete_result("gh", "token", KeyringOutcome::NoEntry).is_ok());
    assert_eq!(
        kc.delete_result("gh", "token", KeyringOutcome::Failed).unwrap_err(),
        "failed to delete gh:token from keychain"
    );
}

#[test]
fn rekeyed_vault_opens_with_the_new_password() {
    let old_salt = [1u8; 32];
    let new_salt = [2u8; 32];
    let key = tkm::crypto::kdf::derive_key("old", &old_salt).unwrap();
    let mut b = EncryptedFileBackend::new("/x");
    b.unlock_with(VaultData::new(), key);
    let bytes = b.seal_vault(&old_salt, b"{\"entries\":[]}").unwrap();
    let rekeyed = rekey_vault("old", &old_salt, &bytes, "new", &new_salt).unwrap();
    let (_, plain) = open_vault("new", &new_salt, &rekeyed).unwrap();
    assert_eq!(plain, b"{\"entries\":[]}");
}

#[test]
fn rekey_needs_the_old_password() {
    let salt = [1u8; 32];
    let mut b = EncryptedFileBackend::new("/x");
    b.unlock_with(VaultData::new(), [9u8; 32]);
    let bytes = b.seal_vault(&salt, b"x").unwrap();
    assert_eq!(
        rekey_vault("wrong", &salt, &bytes, "new", &salt).unwrap_err(),
        "decryption failed: wrong password or corrupted vault"
    );
}
