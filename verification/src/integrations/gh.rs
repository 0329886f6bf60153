//! GitHub CLI: the token `gh auth token` prints and the login `gh api user` reports.
use vstd::prelude::*;
use crate::integrations::entry::{ImportEntry, ImportEntryView, entries_view, imported_meta, make_meta, one_tag};
use crate::model::token::TokenMetaView;
use crate::parse::{trim, trim_str};

verus! {

/// The record of the GitHub token, for the account `username`, at time `now`.
pub open spec fn gh_meta(username: Option<Seq<char>>, now: i64) -> TokenMetaView {
    imported_meta(
        "github"@,
        "token"@,
        "GitHub Personal Access Token"@,
        username,
        Some("https://github.com"@),
        seq!["vcs"@],
        now,
    )
}

/// What the GitHub import finds: nothing when `gh auth token` failed or
/// printed only whitespace; otherwise the trimmed token, with the trimmed
/// login when `gh api user` succeeded.
pub open spec fn gh_found(token_output: Option<Seq<char>>, login_output: Option<Seq<char>>, now: i64) -> Seq<
    ImportEntryView,
> {
    match token_output {
        None => Seq::empty(),
        Some(out) => if trim(out).len() == 0 {
            Seq::empty()
        } else {
            let username = match login_output {
                Some(l) => Some(trim(l)),
                None => None,
            };
            seq![ImportEntryView { meta: gh_meta(username, now), value: trim(out) }]
        },
    }
}

/// The GitHub token found from the output of `gh auth token` (`None` when
/// the command failed) and of `gh api user --jq .login`.
pub fn gh_entries(token_output: Option<&str>, login_output: Option<&str>, now: i64) -> (r: Vec<ImportEntry>)
    ensures
        entries_view(r@) == gh_found(
            match token_output { Some(t) => Some(t@), None => None },
            match login_output { Some(l) => Some(l@), None => None },
            now,
        ),
{
    let mut r: Vec<ImportEntry> = Vec::new();
    let out = match token_output {
        None => {
            assert(entries_view(r@) =~= Seq::<ImportEntryView>::empty());
            return r;
        },
        Some(t) => t,
    };
    let token = trim_str(out);
    if token.as_str().unicode_len() == 0 {
        assert(entries_view(r@) =~= Seq::<ImportEntryView>::empty());
        return r;
    }
    let username = match login_output {
        Some(l) => Some(trim_str(l)),
        None => None,
    };
    let meta = make_meta(
        "github",
        "token",
        String::from_str("GitHub Personal Access Token"),
        username,
        Some(String::from_str("https://github.com")),
        one_tag("vcs"),
        now,
    );
    r.push(ImportEntry { meta, value: token });
    assert(entries_view(r@) =~= gh_found(
        match token_output { Some(t) => Some(t@), None => None },
        match login_output { Some(l) => Some(l@), None => None },
        now,
    ));
    r
}

} // verus!
