use tkm::integrations::docker::{credential_from, docker_credential_text, docker_entries, docker_service_name};
use tkm::integrations::gh::gh_entries;
use tkm::integrations::glab::{glab_entries, glab_service_name};
use tkm::integrations::gradle::{find_property, gradle_entries};
use tkm::integrations::pencil::pencil_entries;
use tkm::model::token::BackendType;

#[test]
fn gh_token_is_trimmed() {
    let found = gh_entries(Some("ghp_abc\n"), Some(" octocat\n"), 7);
    assert_eq!(found.len(), 1);
    let e = &found[0];
    assert_eq!(e.value, "ghp_abc");
    assert_eq!(e.meta.service, "github");
    assert_eq!(e.meta.key, "token");
    assert_eq!(e.meta.username.as_deref(), Some("octocat"));
    assert_eq!(e.meta.label.as_deref(), Some("GitHub Personal Access Token"));
    assert_eq!(e.meta.url.as_deref(), Some("https://github.com"));
    assert_eq!(e.meta.tags, vec!["vcs".to_string()]);
    assert_eq!(e.meta.backend, BackendType::EncryptedFile);
    assert_eq!(e.meta.created_at, 7);
}

#[test]
fn gh_without_token_finds_nothing() {
    assert!(gh_entries(None, Some("octocat"), 0).is_empty());
    assert!(gh_entries(Some("  \n"), None, 0).is_empty());
    let found = gh_entries(Some("t"), None, 0);
    assert_eq!(found[0].meta.username, None);
}

#[test]
fn glab_reads_token_and_host() {
    let stderr = "git.example.com\n  ✓ Logged in to git.example.com as alice (/home/a/.config/glab-cli/config.yml)\n  ✓ Git operations for git.example.com configured to use https protocol.\n  ✓ API calls for git.example.com are made over https protocol\n  ✓ REST API Endpoint: https://git.example.com/api/v4/\n  ✓ GraphQL Endpoint: https://git.example.com/api/graphql/\n  ✓ Token: glpat-xyz\n";
    let found = glab_entries("", stderr, 3);
    assert_eq!(found.len(), 1);
    let e = &found[0];
    assert_eq!(e.value, "glpat-xyz");
    assert_eq!(e.meta.service, "gitlab-git");
    assert_eq!(e.meta.label.as_deref(), Some("GitLab Token (git.example.com)"));
    assert_eq!(e.meta.url.as_deref(), Some("https://git.example.com"));
    assert_eq!(e.meta.tags, vec!["vcs".to_string()]);
}

#[test]
fn glab_defaults_to_gitlab_com() {
    let found = glab_entries("Token: abc\r\n", "", 0);
    assert_eq!(found.len(), 1);
    assert_eq!(found[0].value, "abc");
    assert_eq!(found[0].meta.service, "gitlab");
    assert_eq!(found[0].meta.url.as_deref(), Some("https://gitlab.com"));
    assert!(glab_entries("Token:\n", "", 0).is_empty());
    assert!(glab_entries("no token here", "", 0).is_empty());
    assert_eq!(glab_service_name("gitlab.com"), "gitlab");
    assert_eq!(glab_service_name("code.corp.io"), "gitlab-code");
}

#[test]
fn docker_service_names() {
    assert_eq!(docker_service_name("https://index.docker.io/v1/"), "docker-hub");
    assert_eq!(docker_service_name("ghcr.io"), "docker-ghcr.io");
    assert_eq!(docker_service_name("registry.corp.io/team"), "docker-registry.corp.io");
}

#[test]
fn docker_entries_need_a_secret() {
    assert_eq!(credential_from(Some("bob"), Some("pw")), Some(("bob".to_string(), "pw".to_string())));
    assert_eq!(credential_from(None, Some("pw")), Some((String::new(), "pw".to_string())));
    assert_eq!(credential_from(Some("bob"), Some("")), None);
    assert_eq!(credential_from(Some("bob"), None), None);
    let auths = vec![
        ("".to_string(), Some(("u".to_string(), "p".to_string()))),
        ("ghcr.io".to_string(), None),
        ("https://index.docker.io/v1/".to_string(), Some(("bob".to_string(), "s3".to_string()))),
    ];
    let found = docker_entries(&auths, 11);
    assert_eq!(found.len(), 1);
    let e = &found[0];
    assert_eq!(e.value, "s3");
    assert_eq!(e.meta.service, "docker-hub");
    assert_eq!(e.meta.key, "password");
    assert_eq!(e.meta.username.as_deref(), Some("bob"));
    assert_eq!(e.meta.url.as_deref(), Some("https://index.docker.io/v1/"));
    assert_eq!(e.meta.label.as_deref(), Some("Docker Registry (https://index.docker.io/v1/)"));
    assert_eq!(e.meta.tags, vec!["docker".to_string(), "registry".to_string()]);
}

#[test]
fn gradle_properties() {
    let content = "# nexusPassword=commented\n  nexusUsername = alice  \nnexusPassword=  s3cret \nmavenUser=\nfoo=bar\n";
    assert_eq!(find_property(content, "nexusUsername").as_deref(), Some("alice"));
    assert_eq!(find_property(content, "nexusPassword").as_deref(), Some("s3cret"));
    assert_eq!(find_property(content, "mavenUser"), None);
    assert_eq!(find_property(content, "missing"), None);
    assert_eq!(find_property("a=1\na=2", "a").as_deref(), Some("1"));
    assert_eq!(find_property("keyX=1", "key"), None);
}

#[test]
fn gradle_entries_pair_username_with_password() {
    let content = "nexusUsername=alice\nnexusPassword=pw\ngpr.key=ghp\n";
    let found = gradle_entries(content, 5);
    assert_eq!(found.len(), 3);
    assert_eq!(found[0].meta.service, "nexus-maven");
    assert_eq!(found[0].meta.key, "password");
    assert_eq!(found[0].value, "pw");
    assert_eq!(found[0].meta.username.as_deref(), Some("alice"));
    assert_eq!(found[0].meta.label.as_deref(), Some("Gradle: nexus-maven"));
    assert_eq!(found[1].meta.key, "username");
    assert_eq!(found[1].value, "alice");
    assert_eq!(found[1].meta.label.as_deref(), Some("Gradle: nexus-maven (username)"));
    assert_eq!(found[2].meta.service, "github-packages");
    assert_eq!(found[2].meta.username, None);
    assert_eq!(found[2].meta.tags, vec!["build".to_string(), "maven".to_string()]);
}

#[test]
fn pencil_license() {
    let found = pencil_entries(Some("lic"), Some("a@b.c"), 1);
    assert_eq!(found.len(), 1);
    assert_eq!(found[0].meta.service, "pencil");
    assert_eq!(found[0].meta.key, "license");
    assert_eq!(found[0].meta.username.as_deref(), Some("a@b.c"));
    assert_eq!(found[0].meta.label.as_deref(), Some("Pencil Design License"));
    assert!(pencil_entries(Some(""), None, 1).is_empty());
    assert!(pencil_entries(None, Some("x"), 1).is_empty());
}

#[test]
fn pencil_license_file_text() {
    let found = tkm::integrations::pencil::pencil_scan_text("{\"token\": \"lic-1\", \"email\": \"a@b.c\", \"n\": 3}", 2).unwrap();
    assert_eq!(found.len(), 1);
    assert_eq!(found[0].value, "lic-1");
    assert_eq!(found[0].meta.username.as_deref(), Some("a@b.c"));
    let none = tkm::integrations::pencil::pencil_scan_text("{\"token\": 5}", 2).unwrap();
    assert!(none.is_empty());
    assert!(tkm::integrations::pencil::pencil_scan_text("{not json", 2).is_err());
    assert!(tkm::integrations::pencil::pencil_scan_text("[1, 2]", 2).unwrap().is_empty());
}

#[test]
fn docker_config_text() {
    let config = "{\"auths\": {\"https://index.docker.io/v1/\": {}, \"ghcr.io\": {\"auth\": \"x\"}}, \"credsStore\": \"desktop\"}";
    let regs = tkm::integrations::docker::docker_auth_registries(config).unwrap();
    assert_eq!(regs, vec!["ghcr.io".to_string(), "https://index.docker.io/v1/".to_string()]);
    assert!(tkm::integrations::docker::docker_auth_registries("{}").unwrap().is_empty());
    assert!(tkm::integrations::docker::docker_auth_registries("{\"auths\": 1}").unwrap().is_empty());
    assert!(tkm::integrations::docker::docker_auth_registries("nope").is_err());
}

#[test]
fn docker_helper_answer() {
    assert_eq!(
        docker_credential_text("{\"ServerURL\":\"ghcr.io\",\"Username\":\"bob\",\"Secret\":\"s3\"}"),
        Some(("bob".to_string(), "s3".to_string()))
    );
    assert_eq!(docker_credential_text("{\"Secret\":\"s3\"}"), Some((String::new(), "s3".to_string())));
    assert_eq!(docker_credential_text("{\"Username\":\"bob\",\"Secret\":\"\"}"), None);
    assert_eq!(docker_credential_text("credentials not found"), None);
}
