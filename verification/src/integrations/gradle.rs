//! Gradle and Maven credentials in `~/.gradle/gradle.properties`.
use vstd::prelude::*;
use crate::integrations::entry::{ImportEntry, ImportEntryView, entries_view, imported_meta, make_meta, two_tags};
use crate::parse::{
    unicode_whitespace, trim_end, trim, trim_start, trim_str, trim_start_str, lines, split_lines, starts_with, starts_with_str, find_map,
    lemma_find_map_step, lemma_find_map_ends,
};
use crate::text::chars_of;

verus! {

/// A line that, once its leading whitespace is gone, starts with `#`.
pub open spec fn is_comment(l: Seq<char>) -> bool {
    starts_with(trim_start(l), "#"@)
}

/// The value a line gives `key`: on a line that is not a comment and reads,
/// once trimmed, `key`, optional whitespace, `=` and a value that is not
/// empty once trimmed, that trimmed value.
pub open spec fn property_in_line(l: Seq<char>, key: Seq<char>) -> Option<Seq<char>> {
    if is_comment(l) {
        None
    } else {
        let t = trim(l);
        if starts_with(t, key) {
            let rest = trim_start(t.skip(key.len() as int));
            if rest.len() > 0 && rest[0] == '=' {
                let v = trim(rest.skip(1));
                if v.len() > 0 {
                    Some(v)
                } else {
                    None
                }
            } else {
                None
            }
        } else {
            None
        }
    }
}

/// The value of `key` in a properties text: that of the first line giving one.
pub open spec fn property(content: Seq<char>, key: Seq<char>) -> Option<Seq<char>> {
    find_map(lines(content), |l: Seq<char>| property_in_line(l, key))
}

/// The characters of `v` from `a` on, as a string.
fn tail_string(v: &Vec<char>, a: usize) -> (r: String)
    requires
        a <= v@.len(),
    ensures
        r@ == v@.skip(a as int),
{
    let mut r = String::new();
    let mut i = a;
    while i < v.len()
        invariant
            a <= i <= v@.len(),
            r@ == v@.subrange(a as int, i as int),
        decreases v@.len() - i,
    {
        crate::text::push_char(&mut r, v[i]);
        assert(r@ =~= v@.subrange(a as int, i + 1));
        i = i + 1;
    }
    assert(r@ =~= v@.skip(a as int));
    r
}

/// The value one line gives `key`.
fn property_of_line(l: &str, key: &str) -> (r: Option<String>)
    ensures
        match r {
            Some(x) => property_in_line(l@, key@) == Some(x@),
            None => property_in_line(l@, key@) is None,
        },
{
    let lead = trim_start_str(l);
    if starts_with_str(lead.as_str(), "#") {
        return None;
    }
    let t = trim_str(l);
    if !starts_with_str(t.as_str(), key) {
        return None;
    }
    let tc = chars_of(t.as_str());
    let after = tail_string(&tc, key.unicode_len());
    let rest = trim_start_str(after.as_str());
    let rc = chars_of(rest.as_str());
    if rc.len() > 0 && rc[0] == '=' {
        let v = tail_string(&rc, 1);
        let value = trim_str(v.as_str());
        if value.as_str().unicode_len() > 0 {
            Some(value)
        } else {
            None
        }
    } else {
        None
    }
}

/// The value of `key` in a properties text (see `property`).
pub fn find_property(content: &str, key: &str) -> (r: Option<String>)
    ensures
        match r {
            Some(x) => property(content@, key@) == Some(x@),
            None => property(content@, key@) is None,
        },
{
    let ls = split_lines(content);
    let ghost f = |l: Seq<char>| property_in_line(l, key@);
    let ghost d = ls.deep_view();
    proof {
        lemma_find_map_ends(d, f);
    }
    let mut i: usize = 0;
    while i < ls.len()
        invariant
            i <= ls.len(),
            d == ls.deep_view(),
            d.len() == ls.len(),
            d == lines(content@),
            f == (|l: Seq<char>| property_in_line(l, key@)),
            find_map(d, f) == find_map(d.skip(i as int), f),
        decreases ls.len() - i,
    {
        proof {
            lemma_find_map_step(d, f, i as int);
        }
        assert(d[i as int] == ls[i as int]@);
        match property_of_line(ls[i].as_str(), key) {
            Some(x) => {
                return Some(x);
            },
            None => {},
        }
        i = i + 1;
    }
    proof {
        lemma_find_map_ends(d, f);
    }
    None
}

/// The property names the import looks for: user key, password key and the
/// service they are stored under.
pub open spec fn credential_keys() -> Seq<(Seq<char>, Seq<char>, Seq<char>)> {
    seq![
        ("nexusUsername"@, "nexusPassword"@, "nexus-maven"@),
        ("NEXUS_USERNAME"@, "NEXUS_PASSWORD"@, "nexus-maven"@),
        ("mavenUser"@, "mavenPassword"@, "maven"@),
        ("gpr.user"@, "gpr.key"@, "github-packages"@),
        ("artifactory_user"@, "artifactory_password"@, "artifactory"@),
    ]
}

/// The entries one pair of property names gives: the password, when set,
/// and then the username, when that is set too.
pub open spec fn pair_found(content: Seq<char>, k: (Seq<char>, Seq<char>, Seq<char>), now: i64) -> Seq<ImportEntryView> {
    let (user_key, pass_key, service) = k;
    let username = property(content, user_key);
    match property(content, pass_key) {
        None => Seq::empty(),
        Some(p) => {
            let pw = ImportEntryView {
                meta: imported_meta(
                    service,
                    "password"@,
                    "Gradle: "@ + service,
                    username,
                    None,
                    seq!["build"@, "maven"@],
                    now,
                ),
                value: p,
            };
            match username {
                Some(u) => seq![
                    pw,
                    ImportEntryView {
                        meta: imported_meta(
                            service,
                            "username"@,
                            "Gradle: "@ + service + " (username)"@,
                            None,
                            None,
                            seq!["build"@, "maven"@],
                            now,
                        ),
                        value: u,
                    },
                ],
                None => seq![pw],
            }
        },
    }
}

/// The entries the pairs of property names give, in order.
pub open spec fn pairs_found(content: Seq<char>, keys: Seq<(Seq<char>, Seq<char>, Seq<char>)>, now: i64) -> Seq<
    ImportEntryView,
>
    decreases keys.len(),
{
    if keys.len() == 0 {
        Seq::empty()
    } else {
        pairs_found(content, keys.drop_last(), now) + pair_found(content, keys.last(), now)
    }
}

/// What the Gradle import finds in a properties text.
pub open spec fn gradle_found(content: Seq<char>, now: i64) -> Seq<ImportEntryView> {
    pairs_found(content, credential_keys(), now)
}

/// Appends the entries of one pair of property names.
fn add_pair(r: &mut Vec<ImportEntry>, content: &str, user_key: &str, pass_key: &str, service: &str, now: i64)
    ensures
        entries_view(final(r)@) == entries_view(old(r)@) + pair_found(content@, (user_key@, pass_key@, service@), now),
{
    let ghost before = entries_view(r@);
    let username = find_property(content, user_key);
    let password = find_property(content, pass_key);
    match password {
        None => {
            assert(entries_view(r@) =~= before + pair_found(content@, (user_key@, pass_key@, service@), now));
        },
        Some(p) => {
            let user_copy = match &username {
                Some(u) => Some(u.clone()),
                None => None,
            };
            let meta = make_meta(
                service,
                "password",
                String::from_str("Gradle: ").concat(service),
                user_copy,
                None,
                two_tags("build", "maven"),
                now,
            );
            r.push(ImportEntry { meta, value: p });
            match username {
                Some(u) => {
                    let umeta = make_meta(
                        service,
                        "username",
                        String::from_str("Gradle: ").concat(service).concat(" (username)"),
                        None,
                        None,
                        two_tags("build", "maven"),
                        now,
                    );
                    r.push(ImportEntry { meta: umeta, value: u });
                },
                None => {},
            }
            assert(entries_view(r@) =~= before + pair_found(content@, (user_key@, pass_key@, service@), now));
        },
    }
}

/// The Gradle and Maven credentials found in a properties text.
pub fn gradle_entries(content: &str, now: i64) -> (r: Vec<ImportEntry>)
    ensures
        entries_view(r@) == gradle_found(content@, now),
{
    let mut r: Vec<ImportEntry> = Vec::new();
    let ghost keys = credential_keys();
    assert(entries_view(r@) =~= pairs_found(content@, keys.take(0), now));
    add_pair(&mut r, content, "nexusUsername", "nexusPassword", "nexus-maven", now);
    assert(keys.take(1).drop_last() =~= keys.take(0));
    assert(keys.take(1).last() == keys[0]);
    assert(entries_view(r@) == pairs_found(content@, keys.take(1), now));
    add_pair(&mut r, content, "NEXUS_USERNAME", "NEXUS_PASSWORD", "nexus-maven", now);
    assert(keys.take(2).drop_last() =~= keys.take(1));
    assert(keys.take(2).last() == keys[1]);
    assert(entries_view(r@) == pairs_found(content@, keys.take(2), now));
    add_pair(&mut r, content, "mavenUser", "mavenPassword", "maven", now);
    assert(keys.take(3).drop_last() =~= keys.take(2));
    assert(keys.take(3).last() == keys[2]);
    assert(entries_view(r@) == pairs_found(content@, keys.take(3), now));
    add_pair(&mut r, content, "gpr.user", "gpr.key", "github-packages", now);
    assert(keys.take(4).drop_last() =~= keys.take(3));
    assert(keys.take(4).last() == keys[3]);
    assert(entries_view(r@) == pairs_found(content@, keys.take(4), now));
    add_pair(&mut r, content, "artifactory_user", "artifactory_password", "artifactory", now);
    assert(keys.take(5).drop_last() =~= keys.take(4));
    assert(keys.take(5).last() == keys[4]);
    assert(entries_view(r@) == pairs_found(content@, keys.take(5), now));
    assert(keys.take(5) =~= keys);
    r
}

/// A line `key=value` gives `key` exactly the value: everything after the
/// first `=`, further `=` signs included, for a key that starts with neither
/// whitespace nor `#` and a value with no whitespace at either end.
pub proof fn law_property_is_all_after_equals(key: Seq<char>, value: Seq<char>)
    requires
        key.len() > 0,
        !unicode_whitespace(key[0]),
        key[0] != '#',
        value.len() > 0,
        !unicode_whitespace(value[0]),
        !unicode_whitespace(value.last()),
    ensures
        property_in_line(key + seq!['='] + value, key) == Some(value),
{
    let line = key + seq!['='] + value;
    assert(line[0] == key[0]);
    assert(line.last() == value.last());
    assert(trim_start(line) == line);
    assert(trim_end(line) == line);
    assert(trim(line) == line);
    reveal_strlit("#");
    assert(!starts_with(trim_start(line), "#"@)) by {
        if starts_with(line, "#"@) {
            assert(line.take(1)[0] == line[0]);
        }
    }
    assert(line.take(key.len() as int) =~= key);
    let rest = line.skip(key.len() as int);
    assert(rest =~= seq!['='] + value);
    assert(!unicode_whitespace('='));
    assert(trim_start(rest) == rest);
    assert(rest.skip(1) =~= value);
    assert(trim_start(value) == value);
    assert(trim_end(value) == value);
}

} // verus!
