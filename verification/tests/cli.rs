use tkm::cli::commands::{
    check_confirmation, check_password, env_plan, env_var_name, export_line, found_message, import_source,
    import_sources, is_registered, list_filter, list_header, list_line, list_rule, parse_backend_type,
    record_import, registry_path, set_meta, shell_escape, skip_message, summary_message, tkm_dir,
    unknown_source_message, ImportSource,
};
use tkm::cli::commands::{check_env_services, import_step, ImportAction};
use tkm::model::registry::Registry;
use tkm::model::token::{BackendType, TokenMeta};

fn meta(service: &str, key: &str, backend: BackendType) -> TokenMeta {
    TokenMeta::new_at(service, key, backend, 0)
}

#[test]
fn paths() {
    let dir = tkm_dir("/home/u");
    assert_eq!(dir, "/home/u/.tkm");
    assert_eq!(registry_path(&dir), "/home/u/.tkm/registry.toml");
}

#[test]
fn backend_names() {
    assert_eq!(parse_backend_type("keychain").unwrap(), BackendType::Keychain);
    assert_eq!(parse_backend_type("kc").unwrap(), BackendType::Keychain);
    assert_eq!(parse_backend_type("file").unwrap(), BackendType::EncryptedFile);
    assert_eq!(parse_backend_type("encrypted_file").unwrap(), BackendType::EncryptedFile);
    assert_eq!(parse_backend_type("ef").unwrap(), BackendType::EncryptedFile);
    assert_eq!(
        parse_backend_type("vault").unwrap_err(),
        "unknown backend: vault (use 'keychain' or 'file')"
    );
}

#[test]
fn passwords() {
    assert_eq!(check_password("pw".to_string()).unwrap(), "pw");
    assert_eq!(check_password(String::new()).unwrap_err(), "password cannot be empty");
    assert!(check_confirmation("a", "a").is_ok());
    assert_eq!(check_confirmation("a", "b").unwrap_err(), "passwords do not match");
}

#[test]
fn shell_quoting() {
    assert_eq!(shell_escape("plain"), "'plain'");
    assert_eq!(shell_escape("it's"), "'it'\\''s'");
    assert_eq!(shell_escape(""), "''");
}

#[test]
fn env_names_and_exports() {
    assert_eq!(env_var_name("nexus-maven", "token"), "NEXUS_MAVEN_TOKEN");
    assert_eq!(env_var_name("github", "api-key"), "GITHUB_API_KEY");
    assert_eq!(export_line("gh", "token", "a'b"), "export GH_TOKEN='a'\\''b'");
}

#[test]
fn env_plan_groups_by_backend() {
    let mut reg = Registry::new("r");
    reg.upsert(meta("github", "token", BackendType::EncryptedFile));
    reg.upsert(meta("npm", "token", BackendType::Keychain));
    reg.upsert(meta("docker", "password", BackendType::EncryptedFile));
    let (files, keys) = env_plan(&reg, &vec!["docker".to_string(), "npm".to_string(), "github".to_string()]).unwrap();
    assert_eq!(files.len(), 2);
    assert_eq!(files[0].service, "docker");
    assert_eq!(files[1].service, "github");
    assert_eq!(keys.len(), 1);
    assert_eq!(keys[0].service, "npm");
    assert_eq!(env_plan(&reg, &vec!["nope".to_string()]).unwrap_err(), "no token registered for nope");
    assert_eq!(
        env_plan(&reg, &vec![]).unwrap_err(),
        "specify at least one service: tkm env github nexus-maven ..."
    );
}

#[test]
fn set_keeps_existing_metadata() {
    let mut old = meta("github", "token", BackendType::EncryptedFile);
    old.created_at = 100;
    old.label = Some("Old".into());
    old.username = Some("me".into());
    old.tags = vec!["vcs".into()];
    let m = set_meta("github", "token", BackendType::Keychain, None, None, Some("https://x".into()), 500, Some(&old));
    assert_eq!(m.created_at, 100);
    assert_eq!(m.updated_at, 500);
    assert_eq!(m.label.as_deref(), Some("Old"));
    assert_eq!(m.username.as_deref(), Some("me"));
    assert_eq!(m.url.as_deref(), Some("https://x"));
    assert_eq!(m.tags, vec!["vcs".to_string()]);
    assert_eq!(m.backend, BackendType::Keychain);
    let fresh = set_meta("npm", "token", BackendType::Keychain, Some("L".into()), None, None, 9, None);
    assert_eq!(fresh.created_at, 9);
    assert_eq!(fresh.label.as_deref(), Some("L"));
    assert!(fresh.tags.is_empty());
}

#[test]
fn list_filters_and_rows() {
    let mut a = meta("github", "token", BackendType::EncryptedFile);
    a.tags = vec!["vcs".into()];
    a.label = Some("GitHub".into());
    let mut b = meta("npm", "token", BackendType::Keychain);
    b.expires_at = Some(1_000);
    let entries = vec![a, b];
    assert_eq!(list_filter(&entries, None, false, 0).len(), 2);
    let tagged = list_filter(&entries, Some("vcs"), false, 0);
    assert_eq!(tagged.len(), 1);
    assert_eq!(tagged[0].service, "github");
    assert_eq!(list_filter(&entries, None, true, 500).len(), 0);
    let expired = list_filter(&entries, None, true, 2_000);
    assert_eq!(expired.len(), 1);
    assert_eq!(expired[0].service, "npm");
    assert_eq!(
        list_header(),
        "SERVICE              KEY          BACKEND      EXPIRES      LABEL"
    );
    assert_eq!(list_rule().len(), 72);
    assert_eq!(
        list_line(&entries[0]),
        "github               token        file         never        GitHub"
    );
    assert_eq!(
        list_line(&entries[1]),
        "npm                  token        keychain     1970-01-01   "
    );
}

#[test]
fn import_bookkeeping() {
    let names = import_sources("all");
    assert_eq!(names, vec!["gh", "glab", "docker", "gradle", "pencil"]);
    assert_eq!(import_sources("gh"), vec!["gh"]);
    assert_eq!(import_source("github"), Some(ImportSource::Gh));
    assert_eq!(import_source("gitlab"), Some(ImportSource::Glab));
    assert_eq!(import_source("maven"), Some(ImportSource::Gradle));
    assert_eq!(import_source("pencil"), Some(ImportSource::Pencil));
    assert_eq!(import_source("svn"), None);
    assert_eq!(ImportSource::Docker.scanning(), "Scanning Docker... ");
    assert_eq!(
        unknown_source_message("svn"),
        "Unknown source: svn. Available: gh, glab, docker, gradle, pencil, all"
    );
    assert_eq!(found_message(0), "no tokens found");
    assert_eq!(found_message(2), "2 token(s) found");
    assert_eq!(summary_message(3), "\nImported 3 token(s).");

    let mut reg = Registry::new("r");
    let first = meta("github", "token", BackendType::EncryptedFile);
    assert!(!is_registered(&reg, &first));
    let (total, line) = record_import(&mut reg, first, Ok(()), 0);
    assert_eq!(total, 1);
    assert_eq!(line, "  imported github:token -> file");
    let again = meta("github", "token", BackendType::EncryptedFile);
    assert!(is_registered(&reg, &again));
    assert_eq!(skip_message(&again), "  skip github:token (already exists)");
    let other = meta("npm", "token", BackendType::Keychain);
    let (total, line) = record_import(&mut reg, other, Err("denied".to_string()), total);
    assert_eq!(total, 1);
    assert_eq!(line, "  failed npm:token: denied");
    assert_eq!(reg.len(), 1);
}

/// Reads a word the way a POSIX shell does, for words made of single-quoted
/// parts and backslash escapes.
fn shell_read(word: &str) -> Option<String> {
    let mut out = String::new();
    let mut quoted = false;
    let mut escaped = false;
    for c in word.chars() {
        if escaped {
            out.push(c);
            escaped = false;
        } else if quoted {
            if c == '\'' {
                quoted = false;
            } else {
                out.push(c);
            }
        } else if c == '\'' {
            quoted = true;
        } else if c == '\\' {
            escaped = true;
        } else {
            out.push(c);
        }
    }
    if quoted || escaped {
        None
    } else {
        Some(out)
    }
}

#[test]
fn quoted_values_read_back() {
    for v in ["", "plain", "it's", "'''", "a\\b", "$HOME `x` \"q\"", "line\nbreak"] {
        assert_eq!(shell_read(&shell_escape(v)).as_deref(), Some(v));
    }
}

#[test]
fn env_names_have_no_dashes() {
    for (s, k) in [("a-b", "c-d"), ("x", "y"), ("-", "-")] {
        assert!(!env_var_name(s, k).contains('-'));
    }
}

#[test]
fn registered_records() {
    let mut reg = Registry::new("r");
    reg.upsert(meta("github", "token", BackendType::Keychain));
    assert_eq!(tkm::cli::commands::registered(&reg, "github", "token").unwrap().backend, BackendType::Keychain);
    assert_eq!(
        tkm::cli::commands::registered(&reg, "github", "user").unwrap_err(),
        "no token registered for github:user"
    );
}

#[test]
fn import_skips_registered_pairs() {
    let mut reg = Registry::new("r");
    reg.upsert(meta("github", "token", BackendType::EncryptedFile));
    assert_eq!(import_step(&reg, &meta("github", "token", BackendType::Keychain)), ImportAction::Skip);
    assert_eq!(import_step(&reg, &meta("github", "user", BackendType::Keychain)), ImportAction::Store);
}

#[test]
fn env_needs_a_service() {
    assert!(check_env_services(&vec!["gh".to_string()]).is_ok());
    assert_eq!(
        check_env_services(&vec![]).unwrap_err(),
        "specify at least one service: tkm env github nexus-maven ..."
    );
}
