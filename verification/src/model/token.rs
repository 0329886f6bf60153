//! Token metadata and the secret vault.
use vstd::prelude::*;
use crate::model::lookup::{
    first_index, is_first, some_match, lemma_first_index, lemma_first_index_is, lemma_first_index_push,
    lemma_filter_no_match, lemma_first_index_agree,
};
use crate::text::str_eq;

verus! {

/// Where the secret value of a token lives.
#[derive(Clone, Copy, Debug, PartialEq, Eq, Structural)]
pub enum BackendType {
    Keychain,
    EncryptedFile,
}

impl BackendType {
    /// The name under which the backend is shown: `keychain` or `file`.
    pub fn display_name(&self) -> (r: String)
        ensures
            r@ == backend_display(*self),
    {
        match self {
            BackendType::Keychain => {
                proof { reveal_strlit("keychain"); }
                String::from_str("keychain")
            },
            BackendType::EncryptedFile => {
                proof { reveal_strlit("file"); }
                String::from_str("file")
            },
        }
    }
}

/// The name under which a backend is shown.
pub open spec fn backend_display(b: BackendType) -> Seq<char> {
    match b {
        BackendType::Keychain => seq!['k', 'e', 'y', 'c', 'h', 'a', 'i', 'n'],
        BackendType::EncryptedFile => seq!['f', 'i', 'l', 'e'],
    }
}

/// Current wall-clock time in Unix milliseconds: `chrono::Utc::now()` read
/// through `DateTime::timestamp_millis`. Nothing is stated of the value: it is
/// whatever the clock says.
#[verifier::external_body]
fn now_millis() -> (t: i64) {
    chrono::Utc::now().timestamp_millis()
}

/// What chrono's `format` prints for the UTC time `ms` Unix milliseconds
/// with a strftime pattern.
pub uninterp spec fn utc_format(ms: i64, pattern: Seq<char>) -> Seq<char>;

/// The date of the UTC time `ms` as `%Y-%m-%d`, followed by ` %H:%M` when
/// `with_time` holds.
pub open spec fn utc_text(ms: i64, with_time: bool) -> Seq<char> {
    utc_format(
        ms,
        if with_time {
            "%Y-%m-%d %H:%M"@
        } else {
            "%Y-%m-%d"@
        },
    )
}

/// A time chrono's calendar can show: from the first millisecond of
/// -262143-01-01 to the last of 262142-12-31 (the range of `DateTime<Utc>`,
/// whose `MIN_UTC` and `MAX_UTC` have exactly these Unix milliseconds;
/// `from_timestamp_millis` gives no date one millisecond outside them).
pub open spec fn in_calendar(ms: i64) -> bool {
    -8_334_601_228_800_000 <= ms <= 8_210_266_876_799_999
}

/// `DateTime::<Utc>::from_timestamp_millis`, then `DateTime::format` with a
/// date pattern and `to_string`. The text is named by `utc_format`; chrono's
/// source gives a date for every time `in_calendar`. Only the two patterns
/// the library prints with are admitted (an invalid pattern makes
/// `to_string` panic).
#[verifier::external_body]
fn format_utc(ms: i64, pattern: &str) -> (r: Option<String>)
    requires
        pattern@ == "%Y-%m-%d"@ || pattern@ == "%Y-%m-%d %H:%M"@,
    ensures
        r matches Some(t) ==> t@ == utc_format(ms, pattern@),
        in_calendar(ms) ==> r is Some,
{
    match chrono::DateTime::from_timestamp_millis(ms) {
        Some(d) => Some(d.format(pattern).to_string()),
        None => None,
    }
}

/// The date (and, with `with_time`, the time of day) of `ms` Unix
/// milliseconds in UTC.
pub fn date_text(ms: i64, with_time: bool) -> (r: String)
    requires
        in_calendar(ms),
    ensures
        r@ == utc_text(ms, with_time),
{
    let pattern = if with_time {
        "%Y-%m-%d %H:%M"
    } else {
        "%Y-%m-%d"
    };
    match format_utc(ms, pattern) {
        Some(t) => t,
        None => String::new(),
    }
}

/// All the times of a record are ones chrono's calendar can show.
pub open spec fn meta_in_calendar(m: TokenMetaView) -> bool {
    &&& in_calendar(m.created_at)
    &&& in_calendar(m.updated_at)
    &&& (m.expires_at matches Some(e) ==> in_calendar(e))
}

/// Whether chrono's calendar can show the time `ms`.
pub fn is_in_calendar(ms: i64) -> (r: bool)
    ensures
        r == in_calendar(ms),
{
    -8_334_601_228_800_000 <= ms && ms <= 8_210_266_876_799_999
}

/// The current time in Unix milliseconds, as read from the system clock.
pub fn current_time_millis() -> (t: i64) {
    now_millis()
}

/// Metadata stored in the plaintext registry (no secrets). Times are Unix
/// milliseconds.
#[derive(Debug)]
pub struct TokenMeta {
    pub service: String,
    pub key: String,
    pub label: Option<String>,
    pub username: Option<String>,
    pub url: Option<String>,
    pub tags: Vec<String>,
    pub backend: BackendType,
    pub created_at: i64,
    pub updated_at: i64,
    pub expires_at: Option<i64>,
    pub notes: Option<String>,
}

/// The mathematical value of a `TokenMeta`.
pub struct TokenMetaView {
    pub service: Seq<char>,
    pub key: Seq<char>,
    pub label: Option<Seq<char>>,
    pub username: Option<Seq<char>>,
    pub url: Option<Seq<char>>,
    pub tags: Seq<Seq<char>>,
    pub backend: BackendType,
    pub created_at: i64,
    pub updated_at: i64,
    pub expires_at: Option<i64>,
    pub notes: Option<Seq<char>>,
}

impl View for TokenMeta {
    type V = TokenMetaView;

    open spec fn view(&self) -> TokenMetaView {
        TokenMetaView {
            service: self.service@,
            key: self.key@,
            label: self.label.deep_view(),
            username: self.username.deep_view(),
            url: self.url.deep_view(),
            tags: self.tags.deep_view(),
            backend: self.backend,
            created_at: self.created_at,
            updated_at: self.updated_at,
            expires_at: self.expires_at,
            notes: self.notes.deep_view(),
        }
    }
}

/// A fresh metadata record for `service:key`, created and updated at `now`,
/// with no optional field set.
pub open spec fn fresh_meta(
    service: Seq<char>,
    key: Seq<char>,
    backend: BackendType,
    now: i64,
) -> TokenMetaView {
    TokenMetaView {
        service,
        key,
        label: None,
        username: None,
        url: None,
        tags: Seq::empty(),
        backend,
        created_at: now,
        updated_at: now,
        expires_at: None,
        notes: None,
    }
}

/// A token has expired when it has an expiry time strictly before `now`.
pub open spec fn expired_at(m: TokenMetaView, now: i64) -> bool {
    match m.expires_at {
        Some(e) => e < now,
        None => false,
    }
}

/// The identifier `service:key`.
pub open spec fn meta_id(service: Seq<char>, key: Seq<char>) -> Seq<char> {
    service + seq![':'] + key
}

/// Copies an optional string.
pub fn copy_opt(o: &Option<String>) -> (r: Option<String>)
    ensures
        r.deep_view() == o.deep_view(),
{
    match o {
        Some(s) => Some(s.clone()),
        None => None,
    }
}

/// Copies a list of strings.
pub fn copy_strings(v: &Vec<String>) -> (r: Vec<String>)
    ensures
        r.deep_view() == v.deep_view(),
{
    let mut r: Vec<String> = Vec::new();
    for i in 0..v.len()
        invariant
            r@ == v@.take(i as int),
    {
        r.push(v[i].clone());
        assert(r@ =~= v@.take(i + 1));
    }
    assert(r@ =~= v@);
    assert(r.deep_view() =~= v.deep_view());
    r
}

impl TokenMeta {
    /// A new record for `service:key`, stamped with the current time.
    pub fn new(service: &str, key: &str, backend: BackendType) -> (r: TokenMeta)
        ensures
            r@ == fresh_meta(service@, key@, backend, r.created_at),
    {
        let now = now_millis();
        TokenMeta::new_at(service, key, backend, now)
    }

    /// A new record for `service:key`, stamped with the time `now`.
    pub fn new_at(service: &str, key: &str, backend: BackendType, now: i64) -> (r: TokenMeta)
        ensures
            r@ == fresh_meta(service@, key@, backend, now),
    {
        let r = TokenMeta {
            service: service.to_owned(),
            key: key.to_owned(),
            label: None,
            username: None,
            url: None,
            tags: Vec::new(),
            backend,
            created_at: now,
            updated_at: now,
            expires_at: None,
            notes: None,
        };
        assert(r.tags.deep_view() =~= Seq::<Seq<char>>::empty());
        r
    }

    /// Whether the token has expired by the current time.
    pub fn is_expired(&self) -> (r: bool)
        ensures
            exists|now: i64| r == expired_at(self@, now),
    {
        let now = now_millis();
        self.is_expired_at(now)
    }

    /// Whether the token has expired by the time `now`.
    pub fn is_expired_at(&self, now: i64) -> (r: bool)
        ensures
            r == expired_at(self@, now),
    {
        match self.expires_at {
            Some(e) => e < now,
            None => false,
        }
    }

    /// Unique identifier for this token entry: `service:key`.
    pub fn id(&self) -> (r: String)
        ensures
            r@ == meta_id(self.service@, self.key@),
    {
        let mut s = self.service.clone();
        proof { reveal_strlit(":"); }
        s.append(":");
        s.append(self.key.as_str());
        s
    }

    /// Whether all the record's times are ones chrono's calendar can show.
    pub fn dates_in_calendar(&self) -> (r: bool)
        ensures
            r == meta_in_calendar(self@),
    {
        is_in_calendar(self.created_at) && is_in_calendar(self.updated_at) && match self.expires_at {
            Some(e) => is_in_calendar(e),
            None => true,
        }
    }

    /// A field-by-field copy.
    pub fn duplicate(&self) -> (r: TokenMeta)
        ensures
            r@ == self@,
    {
        TokenMeta {
            service: self.service.clone(),
            key: self.key.clone(),
            label: copy_opt(&self.label),
            username: copy_opt(&self.username),
            url: copy_opt(&self.url),
            tags: copy_strings(&self.tags),
            backend: self.backend,
            created_at: self.created_at,
            updated_at: self.updated_at,
            expires_at: self.expires_at,
            notes: copy_opt(&self.notes),
        }
    }
}

/// Secret stored in the encrypted vault.
#[derive(Debug)]
pub struct VaultEntry {
    pub service: String,
    pub key: String,
    pub value: String,
}

pub struct VaultEntryView {
    pub service: Seq<char>,
    pub key: Seq<char>,
    pub value: Seq<char>,
}

impl View for VaultEntry {
    type V = VaultEntryView;

    open spec fn view(&self) -> VaultEntryView {
        VaultEntryView { service: self.service@, key: self.key@, value: self.value@ }
    }
}

/// The entire vault content.
#[derive(Debug)]
pub struct VaultData {
    pub entries: Vec<VaultEntry>,
}

impl View for VaultData {
    type V = Seq<VaultEntryView>;

    open spec fn view(&self) -> Seq<VaultEntryView> {
        self.entries@.map_values(|e: VaultEntry| e@)
    }
}

/// The entry is the one for `service:key`.
pub open spec fn entry_is(service: Seq<char>, key: Seq<char>) -> spec_fn(VaultEntryView) -> bool {
    |e: VaultEntryView| e.service == service && e.key == key
}

/// The value the vault holds for `service:key`: that of the first entry for it.
pub open spec fn vault_lookup(v: Seq<VaultEntryView>, service: Seq<char>, key: Seq<char>) -> Option<Seq<char>> {
    match first_index(v, entry_is(service, key)) {
        Some(i) => Some(v[i].value),
        None => None,
    }
}

/// The vault after setting `service:key` to `value`: the first entry for it
/// gets the new value, or a new entry is appended.
pub open spec fn vault_set(
    v: Seq<VaultEntryView>,
    service: Seq<char>,
    key: Seq<char>,
    value: Seq<char>,
) -> Seq<VaultEntryView> {
    let e = VaultEntryView { service, key, value };
    match first_index(v, entry_is(service, key)) {
        Some(i) => v.update(i, e),
        None => v.push(e),
    }
}

/// The vault after deleting `service:key`: every entry for it is removed.
pub open spec fn vault_delete(v: Seq<VaultEntryView>, service: Seq<char>, key: Seq<char>) -> Seq<VaultEntryView> {
    v.filter(|e: VaultEntryView| !(e.service == service && e.key == key))
}

/// No two entries of the vault share a `service:key`.
pub open spec fn vault_unique(v: Seq<VaultEntryView>) -> bool {
    forall|i: int, j: int|
        0 <= i < v.len() && 0 <= j < v.len() && i != j ==> !(#[trigger] v[i].service == #[trigger] v[j].service
            && v[i].key == v[j].key)
}

impl VaultData {
    /// An empty vault.
    pub fn new() -> (r: VaultData)
        ensures
            r@ == Seq::<VaultEntryView>::empty(),
    {
        let r = VaultData { entries: Vec::new() };
        assert(r@ =~= Seq::<VaultEntryView>::empty());
        r
    }

    /// Position of the first entry for `service:key`.
    fn find(&self, service: &str, key: &str) -> (r: Option<usize>)
        ensures
            match r {
                Some(i) => first_index(self@, entry_is(service@, key@)) == Some(i as int),
                None => first_index(self@, entry_is(service@, key@)) is None,
            },
    {
        let ghost p = entry_is(service@, key@);
        let mut i: usize = 0;
        while i < self.entries.len()
            invariant
                i <= self.entries.len(),
                p == entry_is(service@, key@),
                forall|j: int| 0 <= j < i ==> !p(#[trigger] self@[j]),
            decreases self.entries.len() - i,
        {
            let e = &self.entries[i];
            if str_eq(e.service.as_str(), service) && str_eq(e.key.as_str(), key) {
                proof {
                    assert(p(self@[i as int]));
                    lemma_first_index_is(self@, p, i as int);
                }
                return Some(i);
            }
            assert(!p(self@[i as int]));
            i = i + 1;
        }
        proof {
            lemma_first_index(self@, p);
            if some_match(self@, p) {
                let k = choose|k: int| 0 <= k < self@.len() && p(#[trigger] self@[k]);
                assert(!p(self@[k]));
            }
        }
        None
    }

    /// The secret value stored for `service:key`, if any.
    pub fn get(&self, service: &str, key: &str) -> (r: Option<&str>)
        ensures
            match r {
                Some(v) => vault_lookup(self@, service@, key@) == Some(v@),
                None => vault_lookup(self@, service@, key@) is None,
            },
    {
        match self.find(service, key) {
            Some(i) => Some(self.entries[i].value.as_str()),
            None => None,
        }
    }

    /// Stores `value` for `service:key`, replacing the value of an existing entry.
    pub fn set(&mut self, service: &str, key: &str, value: &str)
        ensures
            final(self)@ == vault_set(old(self)@, service@, key@, value@),
    {
        let found = self.find(service, key);
        let entry = VaultEntry { service: service.to_owned(), key: key.to_owned(), value: value.to_owned() };
        match found {
            Some(i) => {
                self.entries.set(i, entry);
                assert(self@ =~= vault_set(old(self)@, service@, key@, value@));
            },
            None => {
                self.entries.push(entry);
                assert(self@ =~= vault_set(old(self)@, service@, key@, value@));
            },
        }
    }

    /// Removes every entry for `service:key`; tells whether one was there.
    pub fn delete(&mut self, service: &str, key: &str) -> (removed: bool)
        ensures
            final(self)@ == vault_delete(old(self)@, service@, key@),
            removed == some_match(old(self)@, entry_is(service@, key@)),
    {
        let ghost old_v = self@;
        let ghost keep = |e: VaultEntryView| !(e.service == service@ && e.key == key@);
        let ghost p = entry_is(service@, key@);
        let mut kept: Vec<VaultEntry> = Vec::new();
        let mut removed = false;
        let mut i: usize = 0;
        while i < self.entries.len()
            invariant
                i <= self.entries.len(),
                self@ == old_v,
                kept@.map_values(|e: VaultEntry| e@) == old_v.take(i as int).filter(keep),
                removed == (exists|j: int| 0 <= j < i && p(#[trigger] old_v[j])),
                keep == (|e: VaultEntryView| !(e.service == service@ && e.key == key@)),
                p == entry_is(service@, key@),
            decreases self.entries.len() - i,
        {
            let e = &self.entries[i];
            proof {
                old_v.take(i as int).lemma_filter_push(old_v[i as int], keep);
                assert(old_v.take(i + 1) =~= old_v.take(i as int).push(old_v[i as int]));
            }
            if str_eq(e.service.as_str(), service) && str_eq(e.key.as_str(), key) {
                removed = true;
                assert(p(old_v[i as int]));
            } else {
                let c = VaultEntry { service: e.service.clone(), key: e.key.clone(), value: e.value.clone() };
                kept.push(c);
                assert(kept@.map_values(|e: VaultEntry| e@) =~= old_v.take(i as int).filter(keep).push(old_v[i as int]));
            }
            i = i + 1;
        }
        assert(old_v.take(i as int) =~= old_v);
        self.entries = kept;
        removed
    }
}

/// Reading `service:key` right after setting it gives back the value that was set.
pub proof fn law_vault_set_then_get(
    v: Seq<VaultEntryView>,
    service: Seq<char>,
    key: Seq<char>,
    value: Seq<char>,
)
    ensures
        vault_lookup(vault_set(v, service, key, value), service, key) == Some(value),
{
    let p = entry_is(service, key);
    let e = VaultEntryView { service, key, value };
    lemma_first_index(v, p);
    match first_index(v, p) {
        Some(i) => {
            let t = v.update(i, e);
            assert forall|j: int| 0 <= j < i implies !p(#[trigger] t[j]) by {
                assert(t[j] == v[j]);
                assert(!p(v[j]));
            }
            assert(is_first(t, p, i));
            lemma_first_index_is(t, p, i);
        },
        None => {
            lemma_first_index_push(v, e, p);
        },
    }
}

/// Setting `service:key` leaves what every other key reads unchanged.
pub proof fn law_vault_set_keeps_others(
    v: Seq<VaultEntryView>,
    service: Seq<char>,
    key: Seq<char>,
    value: Seq<char>,
    other_service: Seq<char>,
    other_key: Seq<char>,
)
    requires
        !(other_service == service && other_key == key),
    ensures
        vault_lookup(vault_set(v, service, key, value), other_service, other_key)
            == vault_lookup(v, other_service, other_key),
{
    let p = entry_is(service, key);
    let q = entry_is(other_service, other_key);
    let e = VaultEntryView { service, key, value };
    lemma_first_index(v, p);
    match first_index(v, p) {
        Some(i) => {
            let t = v.update(i, e);
            assert(p(v[i]));
            assert forall|j: int| 0 <= j < v.len() implies #[trigger] q(v[j]) == q(t[j]) by {
                if j != i {
                    assert(t[j] == v[j]);
                }
            }
            lemma_first_index_agree(v, t, q);
            lemma_first_index(v, q);
            match first_index(v, q) {
                Some(k) => {
                    assert(q(v[k]));
                    assert(k != i);
                    assert(t[k] == v[k]);
                },
                None => {},
            }
        },
        None => {
            let t = v.push(e);
            lemma_first_index_push(v, e, q);
            lemma_first_index(v, q);
            match first_index(v, q) {
                Some(k) => {
                    assert(t[k] == v[k]);
                },
                None => {},
            }
        },
    }
}

/// After deleting `service:key`, reading it finds nothing.
pub proof fn law_vault_delete_then_get(v: Seq<VaultEntryView>, service: Seq<char>, key: Seq<char>)
    ensures
        vault_lookup(vault_delete(v, service, key), service, key) is None,
        !some_match(vault_delete(v, service, key), entry_is(service, key)),
{
    let keep = |e: VaultEntryView| !(e.service == service && e.key == key);
    lemma_filter_no_match(v, keep, entry_is(service, key));
}

/// Deleting `service:key` leaves what every other key reads unchanged.
pub proof fn law_vault_delete_keeps_others(
    v: Seq<VaultEntryView>,
    service: Seq<char>,
    key: Seq<char>,
    other_service: Seq<char>,
    other_key: Seq<char>,
)
    requires
        !(other_service == service && other_key == key),
    ensures
        vault_lookup(vault_delete(v, service, key), other_service, other_key)
            == vault_lookup(v, other_service, other_key),
    decreases v.len(),
{
    let keep = |e: VaultEntryView| !(e.service == service && e.key == key);
    let q = entry_is(other_service, other_key);
    if v.len() == 0 {
        reveal(Seq::filter);
        assert(vault_delete(v, service, key) =~= v);
    } else {
        let w = v.drop_last();
        let x = v.last();
        assert(v =~= w.push(x));
        law_vault_delete_keeps_others(w, service, key, other_service, other_key);
        w.lemma_filter_push(x, keep);
        let dw = vault_delete(w, service, key);
        lemma_first_index_push(w, x, q);
        lemma_first_index(w, q);
        lemma_first_index(dw, q);
        if keep(x) {
            lemma_first_index_push(dw, x, q);
            match first_index(dw, q) {
                Some(k) => { assert(dw.push(x)[k] == dw[k]); },
                None => {},
            }
        } else {
            assert(!q(x));
        }
        match first_index(w, q) {
            Some(k) => { assert(w.push(x)[k] == w[k]); },
            None => {},
        }
    }
}

/// Setting a key that is already present does not grow the vault.
pub proof fn law_vault_set_existing_keeps_size(
    v: Seq<VaultEntryView>,
    service: Seq<char>,
    key: Seq<char>,
    value: Seq<char>,
)
    requires
        vault_lookup(v, service, key) is Some,
    ensures
        vault_set(v, service, key, value).len() == v.len(),
{
}

/// Setting a value keeps the vault free of duplicate keys.
pub proof fn law_vault_set_keeps_unique(
    v: Seq<VaultEntryView>,
    service: Seq<char>,
    key: Seq<char>,
    value: Seq<char>,
)
    requires
        vault_unique(v),
    ensures
        vault_unique(vault_set(v, service, key, value)),
{
    let p = entry_is(service, key);
    let e = VaultEntryView { service, key, value };
    lemma_first_index(v, p);
    let t = vault_set(v, service, key, value);
    match first_index(v, p) {
        Some(i) => {
            assert forall|a: int, b: int|
                0 <= a < t.len() && 0 <= b < t.len() && a != b implies !(#[trigger] t[a].service
                == #[trigger] t[b].service && t[a].key == t[b].key) by {
                assert(v[i].service == service && v[i].key == key);
                if a != i && b != i {
                    assert(t[a] == v[a] && t[b] == v[b]);
                } else if a == i {
                    assert(t[b] == v[b]);
                    assert(!(v[i].service == v[b].service && v[i].key == v[b].key));
                } else {
                    assert(t[a] == v[a]);
                    assert(!(v[a].service == v[i].service && v[a].key == v[i].key));
                }
            }
        },
        None => {
            assert forall|a: int, b: int|
                0 <= a < t.len() && 0 <= b < t.len() && a != b implies !(#[trigger] t[a].service
                == #[trigger] t[b].service && t[a].key == t[b].key) by {
                if a < v.len() && b < v.len() {
                    assert(t[a] == v[a] && t[b] == v[b]);
                } else if a == v.len() {
                    assert(t[b] == v[b]);
                    if t[a].service == t[b].service && t[a].key == t[b].key {
                        assert(p(v[b]));
                    }
                } else {
                    assert(t[a] == v[a]);
                    if t[a].service == t[b].service && t[a].key == t[b].key {
                        assert(p(v[a]));
                    }
                }
            }
        },
    }
}

} // verus!
