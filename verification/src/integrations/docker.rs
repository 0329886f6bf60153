//! Docker: the registries of `~/.docker/config.json` whose credentials a
//! Docker credential helper returns.
use vstd::prelude::*;
use crate::integrations::entry::{ImportEntry, ImportEntryView, entries_view, imported_meta, make_meta, two_tags};
use crate::model::token::TokenMetaView;
use crate::parse::{before_char, before_char_str};
use crate::text::{contains_str, has_substring};
use crate::integrations::json::{json_parses, json_str_field, json_object_keys, json_string_field, json_keys};

verus! {

/// The service name for a registry: `docker-hub` for Docker Hub, otherwise
/// `docker-` and the registry up to its first `/`.
pub open spec fn docker_service(registry: Seq<char>) -> Seq<char> {
    if has_substring(registry, "docker.io"@) || has_substring(registry, "index.docker.io"@) {
        "docker-hub"@
    } else {
        "docker-"@ + before_char(registry, '/')
    }
}

/// The record of a registry's password for `username` at time `now`.
pub open spec fn docker_meta(registry: Seq<char>, username: Seq<char>, now: i64) -> TokenMetaView {
    imported_meta(
        docker_service(registry),
        "password"@,
        "Docker Registry ("@ + registry + ")"@,
        Some(username),
        Some(registry),
        seq!["docker"@, "registry"@],
        now,
    )
}

/// The credential a helper's answer holds: its `Username` (empty when
/// absent) and its `Secret`, when that is present and not empty.
pub open spec fn credential(username: Option<Seq<char>>, secret: Option<Seq<char>>) -> Option<(Seq<char>, Seq<char>)> {
    let s = match secret {
        Some(s) => s,
        None => Seq::empty(),
    };
    let u = match username {
        Some(u) => u,
        None => Seq::empty(),
    };
    if s.len() > 0 {
        Some((u, s))
    } else {
        None
    }
}

/// The entries for registries with their credentials: registries with an
/// empty name or no credential are passed over.
pub open spec fn docker_found(auths: Seq<(Seq<char>, Option<(Seq<char>, Seq<char>)>)>, now: i64) -> Seq<ImportEntryView>
    decreases auths.len(),
{
    if auths.len() == 0 {
        Seq::empty()
    } else {
        let rest = docker_found(auths.drop_last(), now);
        let (registry, cred) = auths.last();
        if registry.len() == 0 {
            rest
        } else {
            match cred {
                Some((u, p)) => rest.push(ImportEntryView { meta: docker_meta(registry, u, now), value: p }),
                None => rest,
            }
        }
    }
}

/// The plain value of a registry and its credential.
pub open spec fn auth_view(a: (String, Option<(String, String)>)) -> (Seq<char>, Option<(Seq<char>, Seq<char>)>) {
    (
        a.0@,
        match a.1 {
            Some((u, p)) => Some((u@, p@)),
            None => None,
        },
    )
}

/// The credential in a helper's answer (see `credential`).
pub fn credential_from(username: Option<&str>, secret: Option<&str>) -> (r: Option<(String, String)>)
    ensures
        match r {
            Some((u, s)) => credential(
                match username { Some(x) => Some(x@), None => None },
                match secret { Some(x) => Some(x@), None => None },
            ) == Some((u@, s@)),
            None => credential(
                match username { Some(x) => Some(x@), None => None },
                match secret { Some(x) => Some(x@), None => None },
            ) is None,
        },
{
    let s = match secret {
        Some(x) => String::from_str(x),
        None => String::new(),
    };
    let u = match username {
        Some(x) => String::from_str(x),
        None => String::new(),
    };
    if s.as_str().unicode_len() > 0 {
        Some((u, s))
    } else {
        None
    }
}

/// The service name for a registry (see `docker_service`).
pub fn docker_service_name(registry: &str) -> (r: String)
    ensures
        r@ == docker_service(registry@),
{
    if contains_str(registry, "docker.io") || contains_str(registry, "index.docker.io") {
        String::from_str("docker-hub")
    } else {
        String::from_str("docker-").concat(before_char_str(registry, '/').as_str())
    }
}

/// The Docker entries for the registries of the configuration, each with
/// the credential its helper returned, if any.
pub fn docker_entries(auths: &Vec<(String, Option<(String, String)>)>, now: i64) -> (r: Vec<ImportEntry>)
    ensures
        entries_view(r@) == docker_found(auths@.map_values(|a: (String, Option<(String, String)>)| auth_view(a)), now),
{
    let ghost av = auths@.map_values(|a: (String, Option<(String, String)>)| auth_view(a));
    let mut r: Vec<ImportEntry> = Vec::new();
    let mut i: usize = 0;
    while i < auths.len()
        invariant
            i <= auths.len(),
            av == auths@.map_values(|a: (String, Option<(String, String)>)| auth_view(a)),
            entries_view(r@) == docker_found(av.take(i as int), now),
        decreases auths.len() - i,
    {
        let ghost before = r@;
        assert(av.take(i + 1).drop_last() =~= av.take(i as int));
        assert(av.take(i + 1).last() == auth_view(auths@[i as int]));
        let registry = &auths[i].0;
        if registry.as_str().unicode_len() > 0 {
            match &auths[i].1 {
                Some((u, p)) => {
                    let meta = make_meta(
                        docker_service_name(registry.as_str()).as_str(),
                        "password",
                        String::from_str("Docker Registry (").concat(registry.as_str()).concat(")"),
                        Some(u.clone()),
                        Some(registry.clone()),
                        two_tags("docker", "registry"),
                        now,
                    );
                    r.push(ImportEntry { meta, value: p.clone() });
                    assert(entries_view(r@) =~= entries_view(before).push(entries_view(r@).last()));
                },
                None => {},
            }
        }
        i = i + 1;
    }
    assert(av.take(auths.len() as int) =~= av);
    r
}

/// The registries named in the text of Docker's `config.json`: the keys of
/// its `auths` object, or the parse error when the text is no JSON.
pub fn docker_auth_registries(config: &str) -> (r: Result<Vec<String>, String>)
    ensures
        r is Ok <==> json_parses(config@),
        r matches Ok(v) ==> v.deep_view() == json_object_keys(config@, "auths"@),
{
    json_keys(config, "auths")
}

/// The credential in what a Docker credential helper printed: nothing when
/// the output is no JSON, otherwise its `Username` and `Secret` strings as
/// `credential` takes them.
pub fn docker_credential_text(stdout: &str) -> (r: Option<(String, String)>)
    ensures
        !json_parses(stdout@) ==> r is None,
        json_parses(stdout@) ==> match r {
            Some((u, s)) => credential(json_str_field(stdout@, "Username"@), json_str_field(stdout@, "Secret"@))
                == Some((u@, s@)),
            None => credential(json_str_field(stdout@, "Username"@), json_str_field(stdout@, "Secret"@)) is None,
        },
{
    let username = match json_string_field(stdout, "Username") {
        Ok(u) => u,
        Err(_) => {
            return None;
        },
    };
    let secret = match json_string_field(stdout, "Secret") {
        Ok(s) => s,
        Err(_) => {
            return None;
        },
    };
    let u = match &username {
        Some(x) => Some(x.as_str()),
        None => None,
    };
    let s = match &secret {
        Some(x) => Some(x.as_str()),
        None => None,
    };
    credential_from(u, s)
}

} // verus!
