use tkm::model::registry::Registry;
use tkm::model::token::{date_text, is_in_calendar, BackendType, TokenMeta, VaultData};

fn make_meta(service: &str, key: &str) -> TokenMeta {
    TokenMeta::new(service, key, BackendType::EncryptedFile)
}

#[test]
fn test_token_meta_id() {
    let meta = TokenMeta::new("github", "token", BackendType::Keychain);
    assert_eq!(meta.id(), "github:token");
}

#[test]
fn test_token_meta_not_expired() {
    let meta = TokenMeta::new("github", "token", BackendType::Keychain);
    assert!(!meta.is_expired());
}

#[test]
fn test_vault_data_crud() {
    let mut vault = VaultData::new();

    // Set
    vault.set("github", "token", "ghp_abc123");
    assert_eq!(vault.get("github", "token"), Some("ghp_abc123"));

    // Update
    vault.set("github", "token", "ghp_new456");
    assert_eq!(vault.get("github", "token"), Some("ghp_new456"));
    assert_eq!(vault.entries.len(), 1);

    // Delete
    assert!(vault.delete("github", "token"));
    assert_eq!(vault.get("github", "token"), None);

    // Delete non-existent
    assert!(!vault.delete("github", "token"));
}

#[test]
fn test_registry_crud() {
    let mut reg = Registry::new("/tmp/registry.toml");
    assert!(reg.list().is_empty());

    // Add
    reg.upsert(make_meta("github", "token"));
    assert_eq!(reg.list().len(), 1);
    assert!(reg.get("github").is_some());

    // Update
    let mut updated = make_meta("github", "token");
    updated.label = Some("Updated".into());
    reg.upsert(updated);
    assert_eq!(reg.list().len(), 1);
    assert_eq!(reg.get("github").unwrap().label.as_deref(), Some("Updated"));

    // Remove
    assert!(reg.remove("github", "token"));
    assert!(reg.list().is_empty());
}

#[test]
fn vault_set_keeps_other_keys() {
    let mut vault = VaultData::new();
    vault.set("github", "token", "a");
    vault.set("docker", "password", "b");
    vault.set("github", "token", "c");
    assert_eq!(vault.get("docker", "password"), Some("b"));
    assert_eq!(vault.get("github", "token"), Some("c"));
    assert_eq!(vault.entries.len(), 2);
    assert!(vault.delete("github", "token"));
    assert_eq!(vault.get("docker", "password"), Some("b"));
    assert_eq!(vault.get("github", "token"), None);
}

#[test]
fn vault_keys_are_pairs() {
    let mut vault = VaultData::new();
    vault.set("github", "token", "a");
    vault.set("github", "username", "octocat");
    assert_eq!(vault.get("github", "token"), Some("a"));
    assert_eq!(vault.get("github", "username"), Some("octocat"));
    assert_eq!(vault.get("github", "other"), None);
}

#[test]
fn registry_get_and_get_exact() {
    let mut reg = Registry::new("reg.toml");
    reg.upsert(make_meta("nexus", "password"));
    reg.upsert(make_meta("nexus", "username"));
    assert_eq!(reg.get("nexus").unwrap().key, "password");
    assert_eq!(reg.get_exact("nexus", "username").unwrap().key, "username");
    assert!(reg.get_exact("nexus", "token").is_none());
    assert!(!reg.remove("nexus", "token"));
    assert_eq!(reg.len(), 2);
    assert!(reg.remove("nexus", "password"));
    assert_eq!(reg.get("nexus").unwrap().key, "username");
    assert_eq!(reg.path(), "reg.toml");
}

#[test]
fn registry_upsert_keeps_order_and_others() {
    let mut reg = Registry::new("r");
    reg.upsert(make_meta("a", "k"));
    reg.upsert(make_meta("b", "k"));
    let mut again = make_meta("a", "k");
    again.url = Some("https://a".into());
    reg.upsert(again);
    let list = reg.list();
    assert_eq!(list.len(), 2);
    assert_eq!(list[0].service, "a");
    assert_eq!(list[0].url.as_deref(), Some("https://a"));
    assert_eq!(list[1].service, "b");
}

#[test]
fn token_meta_expiry_at_time() {
    let mut meta = TokenMeta::new_at("svc", "token", BackendType::Keychain, 1_000);
    assert_eq!(meta.created_at, 1_000);
    assert_eq!(meta.updated_at, 1_000);
    assert!(!meta.is_expired_at(5_000));
    meta.expires_at = Some(2_000);
    assert!(!meta.is_expired_at(2_000));
    assert!(meta.is_expired_at(2_001));
    let copy = meta.duplicate();
    assert_eq!(copy.expires_at, Some(2_000));
    assert_eq!(copy.id(), "svc:token");
}

#[test]
fn backend_display_names() {
    assert_eq!(BackendType::Keychain.display_name(), "keychain");
    assert_eq!(BackendType::EncryptedFile.display_name(), "file");
}

#[test]
fn dates_print_in_utc() {
    assert_eq!(date_text(0, false), "1970-01-01");
    assert_eq!(date_text(0, true), "1970-01-01 00:00");
    assert_eq!(date_text(947_638_923_004, true), "2000-01-12 01:02");
    assert_eq!(date_text(-86_400_000, false), "1969-12-31");
}

#[test]
fn clock_reads_the_present() {
    let now = tkm::model::token::current_time_millis();
    assert!(now > 1_600_000_000_000);
    let meta = TokenMeta::new("a", "b", BackendType::Keychain);
    assert!(meta.created_at >= now);
    assert_eq!(meta.created_at, meta.updated_at);
}

#[test]
fn calendar_bounds_are_chronos() {
    let first = -8_334_601_228_800_000i64;
    let last = 8_210_266_876_799_999i64;
    assert_eq!(chrono::DateTime::<chrono::Utc>::MIN_UTC.timestamp_millis(), first);
    assert_eq!(chrono::DateTime::<chrono::Utc>::MAX_UTC.timestamp_millis(), last);
    assert!(chrono::DateTime::from_timestamp_millis(first).is_some());
    assert!(chrono::DateTime::from_timestamp_millis(first - 1).is_none());
    assert!(chrono::DateTime::from_timestamp_millis(first - 86_400_000).is_none());
    assert!(chrono::DateTime::from_timestamp_millis(last).is_some());
    assert!(chrono::DateTime::from_timestamp_millis(last + 1).is_none());
    assert!(is_in_calendar(first) && is_in_calendar(last));
    assert!(!is_in_calendar(first - 1) && !is_in_calendar(last + 1));
    assert_eq!(date_text(first, false), "-262143-01-01");
    assert_eq!(date_text(last, true), "+262142-12-31 23:59");
}
