//! Pencil: the license token kept in `~/.pencil/license-token.json`.
use vstd::prelude::*;
use crate::integrations::entry::{ImportEntry, ImportEntryView, entries_view, imported_meta, make_meta, two_tags};
use crate::model::token::TokenMetaView;
use crate::integrations::json::{json_parses, json_str_field, json_string_field};

verus! {

/// The record of the Pencil license for the account `email` at time `now`.
pub open spec fn pencil_meta(email: Option<Seq<char>>, now: i64) -> TokenMetaView {
    imported_meta(
        "pencil"@,
        "license"@,
        "Pencil Design License"@,
        email,
        None,
        seq!["design"@, "license"@],
        now,
    )
}

/// What the Pencil import finds from the file's `token` and `email` strings:
/// the token, when present and not empty.
pub open spec fn pencil_found(token: Option<Seq<char>>, email: Option<Seq<char>>, now: i64) -> Seq<ImportEntryView> {
    match token {
        Some(t) => if t.len() > 0 {
            seq![ImportEntryView { meta: pencil_meta(email, now), value: t }]
        } else {
            Seq::empty()
        },
        None => Seq::empty(),
    }
}

/// The Pencil license found from the `token` and `email` strings of its file.
pub fn pencil_entries(token: Option<&str>, email: Option<&str>, now: i64) -> (r: Vec<ImportEntry>)
    ensures
        entries_view(r@) == pencil_found(
            match token { Some(t) => Some(t@), None => None },
            match email { Some(e) => Some(e@), None => None },
            now,
        ),
{
    let mut r: Vec<ImportEntry> = Vec::new();
    match token {
        Some(t) => {
            if t.unicode_len() > 0 {
                let e = match email {
                    Some(e) => Some(String::from_str(e)),
                    None => None,
                };
                let meta = make_meta(
                    "pencil",
                    "license",
                    String::from_str("Pencil Design License"),
                    e,
                    None,
                    two_tags("design", "license"),
                    now,
                );
                r.push(ImportEntry { meta, value: String::from_str(t) });
            }
        },
        None => {},
    }
    assert(entries_view(r@) =~= pencil_found(
        match token { Some(t) => Some(t@), None => None },
        match email { Some(e) => Some(e@), None => None },
        now,
    ));
    r
}

/// The Pencil license found in the text of its license file: the entries for
/// its `token` and `email` strings, or the parse error when the text is no
/// JSON.
pub fn pencil_scan_text(content: &str, now: i64) -> (r: Result<Vec<ImportEntry>, String>)
    ensures
        r is Ok <==> json_parses(content@),
        r matches Ok(v) ==> entries_view(v@) == pencil_found(
            json_str_field(content@, "token"@),
            json_str_field(content@, "email"@),
            now,
        ),
{
    let token = json_string_field(content, "token")?;
    let email = json_string_field(content, "email")?;
    let t = match &token {
        Some(t) => Some(t.as_str()),
        None => None,
    };
    let e = match &email {
        Some(e) => Some(e.as_str()),
        None => None,
    };
    Ok(pencil_entries(t, e, now))
}

} // verus!
