//! GitLab CLI: the token and host that `glab auth status --show-token` reports.
use vstd::prelude::*;
use crate::integrations::entry::{ImportEntry, ImportEntryView, entries_view, imported_meta, make_meta, one_tag};
use crate::model::token::TokenMetaView;
use crate::parse::{
    trim, trim_str, lines, split_lines, starts_with, starts_with_str, second_piece, second_piece_of, first_word,
    first_word_of, before_char, before_char_str, find_map, lemma_find_map_step, lemma_find_map_ends,
};
use crate::text::{chars_of, contains_str, has_substring};

verus! {

/// The token a status line shows: the trimmed text after `Token:` (up to a
/// further colon) on a line that starts, once trimmed, with `Token:` or
/// `✓ Token:`.
pub open spec fn token_in_line(l: Seq<char>) -> Option<Seq<char>> {
    let t = trim(l);
    if starts_with(t, "Token:"@) || starts_with(t, "✓ Token:"@) {
        match second_piece(t, ":"@) {
            Some(p) => Some(trim(p)),
            None => None,
        }
    } else {
        None
    }
}

/// The host a status line names: the word after `Logged in to `.
pub open spec fn host_in_line(l: Seq<char>) -> Option<Seq<char>> {
    let t = trim(l);
    if has_substring(t, "Logged in to"@) {
        match second_piece(t, "Logged in to "@) {
            Some(p) => first_word(p),
            None => None,
        }
    } else {
        None
    }
}

/// The token of the first line that shows one.
pub open spec fn glab_token(output: Seq<char>) -> Option<Seq<char>> {
    find_map(lines(output), |l: Seq<char>| token_in_line(l))
}

/// The host of the first line that names one, or `gitlab.com`.
pub open spec fn glab_host(output: Seq<char>) -> Seq<char> {
    match find_map(lines(output), |l: Seq<char>| host_in_line(l)) {
        Some(h) => h,
        None => "gitlab.com"@,
    }
}

/// The service name for a GitLab host: `gitlab` for gitlab.com, otherwise
/// `gitlab-` and the host's first label.
pub open spec fn glab_service(host: Seq<char>) -> Seq<char> {
    if has_substring(host, "gitlab.com"@) {
        "gitlab"@
    } else {
        "gitlab-"@ + before_char(host, '.')
    }
}

/// The record of a GitLab token for `host` at time `now`.
pub open spec fn glab_meta(host: Seq<char>, now: i64) -> TokenMetaView {
    imported_meta(
        glab_service(host),
        "token"@,
        "GitLab Token ("@ + host + ")"@,
        None,
        Some("https://"@ + host),
        seq!["vcs"@],
        now,
    )
}

/// What the GitLab import finds in the status output (standard output
/// followed by standard error): the token, when one is shown and not empty.
pub open spec fn glab_found(output: Seq<char>, now: i64) -> Seq<ImportEntryView> {
    match glab_token(output) {
        Some(t) => if t.len() > 0 {
            seq![ImportEntryView { meta: glab_meta(glab_host(output), now), value: t }]
        } else {
            Seq::empty()
        },
        None => Seq::empty(),
    }
}

/// The token shown on one status line.
fn token_of_line(l: &str) -> (r: Option<String>)
    ensures
        match r {
            Some(x) => token_in_line(l@) == Some(x@),
            None => token_in_line(l@) is None,
        },
{
    let t = trim_str(l);
    if starts_with_str(t.as_str(), "Token:") || starts_with_str(t.as_str(), "✓ Token:") {
        let tc = chars_of(t.as_str());
        let colon = chars_of(":");
        match second_piece_of(&tc, &colon) {
            Some(p) => {
                let mut ps = String::new();
                let mut i: usize = 0;
                while i < p.len()
                    invariant
                        i <= p@.len(),
                        ps@ == p@.take(i as int),
                    decreases p@.len() - i,
                {
                    crate::text::push_char(&mut ps, p[i]);
                    assert(ps@ =~= p@.take(i + 1));
                    i = i + 1;
                }
                assert(p@.take(p@.len() as int) =~= p@);
                Some(trim_str(ps.as_str()))
            },
            None => None,
        }
    } else {
        None
    }
}

/// The host named on one status line.
fn host_of_line(l: &str) -> (r: Option<String>)
    ensures
        match r {
            Some(x) => host_in_line(l@) == Some(x@),
            None => host_in_line(l@) is None,
        },
{
    let t = trim_str(l);
    if contains_str(t.as_str(), "Logged in to") {
        let tc = chars_of(t.as_str());
        let pat = chars_of("Logged in to ");
        match second_piece_of(&tc, &pat) {
            Some(p) => first_word_of(&p),
            None => None,
        }
    } else {
        None
    }
}

/// The token of the first line that shows one.
fn find_token(ls: &Vec<String>) -> (r: Option<String>)
    ensures
        match r {
            Some(x) => find_map(ls.deep_view(), |l: Seq<char>| token_in_line(l)) == Some(x@),
            None => find_map(ls.deep_view(), |l: Seq<char>| token_in_line(l)) is None,
        },
{
    let ghost f = |l: Seq<char>| token_in_line(l);
    let ghost d = ls.deep_view();
    proof {
        lemma_find_map_ends(d, f);
    }
    let mut i: usize = 0;
    while i < ls.len()
        invariant
            i <= ls.len(),
            d == ls.deep_view(),
            d.len() == ls.len(),
            f == (|l: Seq<char>| token_in_line(l)),
            find_map(d, f) == find_map(d.skip(i as int), f),
        decreases ls.len() - i,
    {
        proof {
            lemma_find_map_step(d, f, i as int);
        }
        assert(d[i as int] == ls[i as int]@);
        match token_of_line(ls[i].as_str()) {
            Some(x) => {
                return Some(x);
            },
            None => {},
        }
        i = i + 1;
    }
    proof {
        lemma_find_map_ends(d, f);
    }
    None
}

/// The host of the first line that names one.
fn find_host(ls: &Vec<String>) -> (r: Option<String>)
    ensures
        match r {
            Some(x) => find_map(ls.deep_view(), |l: Seq<char>| host_in_line(l)) == Some(x@),
            None => find_map(ls.deep_view(), |l: Seq<char>| host_in_line(l)) is None,
        },
{
    let ghost f = |l: Seq<char>| host_in_line(l);
    let ghost d = ls.deep_view();
    proof {
        lemma_find_map_ends(d, f);
    }
    let mut i: usize = 0;
    while i < ls.len()
        invariant
            i <= ls.len(),
            d == ls.deep_view(),
            d.len() == ls.len(),
            f == (|l: Seq<char>| host_in_line(l)),
            find_map(d, f) == find_map(d.skip(i as int), f),
        decreases ls.len() - i,
    {
        proof {
            lemma_find_map_step(d, f, i as int);
        }
        assert(d[i as int] == ls[i as int]@);
        match host_of_line(ls[i].as_str()) {
            Some(x) => {
                return Some(x);
            },
            None => {},
        }
        i = i + 1;
    }
    proof {
        lemma_find_map_ends(d, f);
    }
    None
}

/// The service name for a GitLab host (see `glab_service`).
pub fn glab_service_name(host: &str) -> (r: String)
    ensures
        r@ == glab_service(host@),
{
    if contains_str(host, "gitlab.com") {
        String::from_str("gitlab")
    } else {
        String::from_str("gitlab-").concat(before_char_str(host, '.').as_str())
    }
}

/// The GitLab token found in the status output of `glab auth status
/// --show-token`: its standard output followed by its standard error.
pub fn glab_entries(stdout: &str, stderr: &str, now: i64) -> (r: Vec<ImportEntry>)
    ensures
        entries_view(r@) == glab_found(stdout@ + stderr@, now),
{
    let combined = String::from_str(stdout).concat(stderr);
    let ls = split_lines(combined.as_str());
    let mut r: Vec<ImportEntry> = Vec::new();
    let token = match find_token(&ls) {
        Some(t) => t,
        None => {
            assert(entries_view(r@) =~= Seq::<ImportEntryView>::empty());
            return r;
        },
    };
    if token.as_str().unicode_len() == 0 {
        assert(entries_view(r@) =~= Seq::<ImportEntryView>::empty());
        return r;
    }
    let host = match find_host(&ls) {
        Some(h) => h,
        None => String::from_str("gitlab.com"),
    };
    let service = glab_service_name(host.as_str());
    let label = String::from_str("GitLab Token (").concat(host.as_str()).concat(")");
    let url = String::from_str("https://").concat(host.as_str());
    let meta = make_meta(service.as_str(), "token", label, None, Some(url), one_tag("vcs"), now);
    r.push(ImportEntry { meta, value: token });
    assert(entries_view(r@) =~= glab_found(stdout@ + stderr@, now));
    r
}

} // verus!
