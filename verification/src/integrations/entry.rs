//! A token found by an importer.
use vstd::prelude::*;
use crate::model::token::{TokenMeta, TokenMetaView, BackendType, fresh_meta};

verus! {

/// A token found by an importer: its registry record and its secret value.
#[derive(Debug)]
pub struct ImportEntry {
    pub meta: TokenMeta,
    pub value: String,
}

pub struct ImportEntryView {
    pub meta: TokenMetaView,
    pub value: Seq<char>,
}

impl View for ImportEntry {
    type V = ImportEntryView;

    open spec fn view(&self) -> ImportEntryView {
        ImportEntryView { meta: self.meta@, value: self.value@ }
    }
}

/// The entries of a list, as plain values.
pub open spec fn entries_view(v: Seq<ImportEntry>) -> Seq<ImportEntryView> {
    v.map_values(|e: ImportEntry| e@)
}

/// A record stored in the encrypted file at time `now`, with a label,
/// optional username and URL, and tags.
pub open spec fn imported_meta(
    service: Seq<char>,
    key: Seq<char>,
    label: Seq<char>,
    username: Option<Seq<char>>,
    url: Option<Seq<char>>,
    tags: Seq<Seq<char>>,
    now: i64,
) -> TokenMetaView {
    TokenMetaView {
        label: Some(label),
        username,
        url,
        tags,
        ..fresh_meta(service, key, BackendType::EncryptedFile, now)
    }
}

/// Builds an imported record (see `imported_meta`).
pub fn make_meta(
    service: &str,
    key: &str,
    label: String,
    username: Option<String>,
    url: Option<String>,
    tags: Vec<String>,
    now: i64,
) -> (r: TokenMeta)
    ensures
        r@ == imported_meta(service@, key@, label@, username.deep_view(), url.deep_view(), tags.deep_view(), now),
{
    let mut m = TokenMeta::new_at(service, key, BackendType::EncryptedFile, now);
    m.label = Some(label);
    m.username = username;
    m.url = url;
    m.tags = tags;
    m
}

/// A list of two tags.
pub fn two_tags(a: &str, b: &str) -> (r: Vec<String>)
    ensures
        r.deep_view() == seq![a@, b@],
{
    let r = vec![String::from_str(a), String::from_str(b)];
    assert(r.deep_view() =~= seq![a@, b@]);
    r
}

/// A list of one tag.
pub fn one_tag(a: &str) -> (r: Vec<String>)
    ensures
        r.deep_view() == seq![a@],
{
    let r = vec![String::from_str(a)];
    assert(r.deep_view() =~= seq![a@]);
    r
}

} // verus!
