//! The plaintext registry: metadata of every token, no secrets.
use vstd::prelude::*;
use crate::model::lookup::{
    first_index, find_first, replace_first, some_match, lemma_first_index, lemma_first_index_is,
    lemma_replace_first_finds, lemma_replace_first_others, lemma_filter_keeps_others,
    lemma_filter_no_match,
};
use crate::model::token::{TokenMeta, TokenMetaView};
use crate::text::str_eq;

verus! {

/// The record is the one for `service:key`.
pub open spec fn meta_is(service: Seq<char>, key: Seq<char>) -> spec_fn(TokenMetaView) -> bool {
    |m: TokenMetaView| m.service == service && m.key == key
}

/// The record belongs to `service`.
pub open spec fn service_is(service: Seq<char>) -> spec_fn(TokenMetaView) -> bool {
    |m: TokenMetaView| m.service == service
}

/// The registry after adding or updating `m`: the first record for its
/// `service:key` is replaced, or `m` is appended.
pub open spec fn registry_upsert(v: Seq<TokenMetaView>, m: TokenMetaView) -> Seq<TokenMetaView> {
    replace_first(v, meta_is(m.service, m.key), m)
}

/// The registry after removing every record for `service:key`.
pub open spec fn registry_remove(v: Seq<TokenMetaView>, service: Seq<char>, key: Seq<char>) -> Seq<TokenMetaView> {
    v.filter(|m: TokenMetaView| !(m.service == service && m.key == key))
}

/// No two records share a `service:key`.
pub open spec fn registry_unique(v: Seq<TokenMetaView>) -> bool {
    forall|i: int, j: int|
        0 <= i < v.len() && 0 <= j < v.len() && i != j ==> !(#[trigger] v[i].service == #[trigger] v[j].service
            && v[i].key == v[j].key)
}

/// Manages the plaintext registry that maps services to backends and metadata.
pub struct Registry {
    path: String,
    entries: Vec<TokenMeta>,
}

impl View for Registry {
    type V = Seq<TokenMetaView>;

    closed spec fn view(&self) -> Seq<TokenMetaView> {
        self.entries@.map_values(|m: TokenMeta| m@)
    }
}

impl Registry {
    /// The file the registry is kept in.
    pub closed spec fn spec_path(&self) -> Seq<char> {
        self.path@
    }

    /// An empty registry kept at `path`.
    pub fn new(path: &str) -> (r: Registry)
        ensures
            r@ == Seq::<TokenMetaView>::empty(),
            r.spec_path() == path@,
    {
        let r = Registry { path: path.to_owned(), entries: Vec::new() };
        assert(r@ =~= Seq::<TokenMetaView>::empty());
        r
    }

    /// A registry kept at `path` holding `entries` in order.
    pub fn from_entries(path: &str, entries: Vec<TokenMeta>) -> (r: Registry)
        ensures
            r@ == entries@.map_values(|m: TokenMeta| m@),
            r.spec_path() == path@,
    {
        Registry { path: path.to_owned(), entries }
    }

    /// The file the registry is kept in.
    pub fn path(&self) -> (r: &str)
        ensures
            r@ == self.spec_path(),
    {
        self.path.as_str()
    }

    fn find_where(&self, service: &str, key: Option<&str>) -> (r: Option<usize>)
        ensures
            key is None ==> match r {
                Some(i) => first_index(self@, service_is(service@)) == Some(i as int),
                None => first_index(self@, service_is(service@)) is None,
            },
            key matches Some(k) ==> match r {
                Some(i) => first_index(self@, meta_is(service@, k@)) == Some(i as int),
                None => first_index(self@, meta_is(service@, k@)) is None,
            },
    {
        let ghost p = match key {
            Some(k) => meta_is(service@, k@),
            None => service_is(service@),
        };
        let mut i: usize = 0;
        while i < self.entries.len()
            invariant
                i <= self.entries.len(),
                p == (match key {
                    Some(k) => meta_is(service@, k@),
                    None => service_is(service@),
                }),
                forall|j: int| 0 <= j < i ==> !p(#[trigger] self@[j]),
            decreases self.entries.len() - i,
        {
            let e = &self.entries[i];
            let hit = match key {
                Some(k) => str_eq(e.service.as_str(), service) && str_eq(e.key.as_str(), k),
                None => str_eq(e.service.as_str(), service),
            };
            if hit {
                proof {
                    assert(p(self@[i as int]));
                    lemma_first_index_is(self@, p, i as int);
                }
                return Some(i);
            }
            assert(!p(self@[i as int]));
            i = i + 1;
        }
        proof {
            lemma_first_index(self@, p);
            if some_match(self@, p) {
                let k = choose|k: int| 0 <= k < self@.len() && p(#[trigger] self@[k]);
                assert(!p(self@[k]));
            }
        }
        None
    }

    /// Metadata for a service: the first record with that service name.
    pub fn get(&self, service: &str) -> (r: Option<&TokenMeta>)
        ensures
            match r {
                Some(m) => find_first(self@, service_is(service@)) == Some(m@),
                None => find_first(self@, service_is(service@)) is None,
            },
    {
        match self.find_where(service, None) {
            Some(i) => Some(&self.entries[i]),
            None => None,
        }
    }

    /// Metadata for a specific `service:key` pair.
    pub fn get_exact(&self, service: &str, key: &str) -> (r: Option<&TokenMeta>)
        ensures
            match r {
                Some(m) => find_first(self@, meta_is(service@, key@)) == Some(m@),
                None => find_first(self@, meta_is(service@, key@)) is None,
            },
    {
        match self.find_where(service, Some(key)) {
            Some(i) => Some(&self.entries[i]),
            None => None,
        }
    }

    /// All records, in order.
    pub fn list(&self) -> (r: &[TokenMeta])
        ensures
            r@.map_values(|m: TokenMeta| m@) == self@,
    {
        self.entries.as_slice()
    }

    /// Number of records.
    pub fn len(&self) -> (n: usize)
        ensures
            n == self@.len(),
    {
        self.entries.len()
    }

    /// Adds a record, or replaces the first record with the same `service:key`.
    pub fn upsert(&mut self, meta: TokenMeta)
        ensures
            final(self)@ == registry_upsert(old(self)@, meta@),
            final(self).spec_path() == old(self).spec_path(),
    {
        let ghost m = meta@;
        let found = self.find_where(meta.service.as_str(), Some(meta.key.as_str()));
        match found {
            Some(i) => {
                self.entries.set(i, meta);
                assert(self@ =~= registry_upsert(old(self)@, m));
            },
            None => {
                self.entries.push(meta);
                assert(self@ =~= registry_upsert(old(self)@, m));
            },
        }
    }

    /// Removes every record for `service:key`; tells whether one was there.
    pub fn remove(&mut self, service: &str, key: &str) -> (removed: bool)
        ensures
            final(self)@ == registry_remove(old(self)@, service@, key@),
            final(self).spec_path() == old(self).spec_path(),
            removed == some_match(old(self)@, meta_is(service@, key@)),
    {
        let ghost old_v = self@;
        let ghost keep = |m: TokenMetaView| !(m.service == service@ && m.key == key@);
        let ghost p = meta_is(service@, key@);
        let mut kept: Vec<TokenMeta> = Vec::new();
        let mut removed = false;
        let mut i: usize = 0;
        while i < self.entries.len()
            invariant
                i <= self.entries.len(),
                self@ == old_v,
                kept@.map_values(|m: TokenMeta| m@) == old_v.take(i as int).filter(keep),
                removed == (exists|j: int| 0 <= j < i && p(#[trigger] old_v[j])),
                keep == (|m: TokenMetaView| !(m.service == service@ && m.key == key@)),
                p == meta_is(service@, key@),
            decreases self.entries.len() - i,
        {
            let e = &self.entries[i];
            proof {
                old_v.take(i as int).lemma_filter_push(old_v[i as int], keep);
                assert(old_v.take(i + 1) =~= old_v.take(i as int).push(old_v[i as int]));
            }
            if str_eq(e.service.as_str(), service) && str_eq(e.key.as_str(), key) {
                removed = true;
                assert(p(old_v[i as int]));
            } else {
                let c = e.duplicate();
                kept.push(c);
                assert(kept@.map_values(|m: TokenMeta| m@) =~= old_v.take(i as int).filter(keep).push(
                    old_v[i as int],
                ));
            }
            i = i + 1;
        }
        assert(old_v.take(i as int) =~= old_v);
        self.entries = kept;
        removed
    }
}

/// After adding or updating `m`, looking up its `service:key` gives `m` back.
pub proof fn law_registry_upsert_then_get_exact(v: Seq<TokenMetaView>, m: TokenMetaView)
    ensures
        find_first(registry_upsert(v, m), meta_is(m.service, m.key)) == Some(m),
{
    lemma_replace_first_finds(v, meta_is(m.service, m.key), m);
}

/// After adding or updating `m`, its service has a record.
pub proof fn law_registry_upsert_then_get(v: Seq<TokenMetaView>, m: TokenMetaView)
    ensures
        find_first(registry_upsert(v, m), service_is(m.service)) is Some,
{
    let t = registry_upsert(v, m);
    lemma_replace_first_finds(v, meta_is(m.service, m.key), m);
    lemma_first_index(t, meta_is(m.service, m.key));
    let i = first_index(t, meta_is(m.service, m.key))->0;
    assert(service_is(m.service)(t[i]));
    crate::model::lookup::lemma_first_exists(t, service_is(m.service), i);
    lemma_first_index(t, service_is(m.service));
}

/// Adding or updating `m` leaves every other `service:key` lookup unchanged.
pub proof fn law_registry_upsert_keeps_others(
    v: Seq<TokenMetaView>,
    m: TokenMetaView,
    service: Seq<char>,
    key: Seq<char>,
)
    requires
        !(service == m.service && key == m.key),
    ensures
        find_first(registry_upsert(v, m), meta_is(service, key)) == find_first(v, meta_is(service, key)),
{
    lemma_replace_first_others(v, meta_is(m.service, m.key), m, meta_is(service, key));
}

/// After removing `service:key`, looking it up finds nothing.
pub proof fn law_registry_remove_then_get_exact(v: Seq<TokenMetaView>, service: Seq<char>, key: Seq<char>)
    ensures
        find_first(registry_remove(v, service, key), meta_is(service, key)) is None,
        !some_match(registry_remove(v, service, key), meta_is(service, key)),
{
    let keep = |m: TokenMetaView| !(m.service == service && m.key == key);
    lemma_filter_no_match(v, keep, meta_is(service, key));
}

/// Removing `service:key` leaves every other `service:key` lookup unchanged.
pub proof fn law_registry_remove_keeps_others(
    v: Seq<TokenMetaView>,
    service: Seq<char>,
    key: Seq<char>,
    other_service: Seq<char>,
    other_key: Seq<char>,
)
    requires
        !(other_service == service && other_key == key),
    ensures
        find_first(registry_remove(v, service, key), meta_is(other_service, other_key))
            == find_first(v, meta_is(other_service, other_key)),
{
    let keep = |m: TokenMetaView| !(m.service == service && m.key == key);
    lemma_filter_keeps_others(v, keep, meta_is(other_service, other_key));
}

/// Adding or updating a record keeps the registry free of duplicate keys.
pub proof fn law_registry_upsert_keeps_unique(v: Seq<TokenMetaView>, m: TokenMetaView)
    requires
        registry_unique(v),
    ensures
        registry_unique(registry_upsert(v, m)),
{
    let p = meta_is(m.service, m.key);
    lemma_first_index(v, p);
    let t = registry_upsert(v, m);
    match first_index(v, p) {
        Some(i) => {
            assert forall|a: int, b: int|
                0 <= a < t.len() && 0 <= b < t.len() && a != b implies !(#[trigger] t[a].service
                == #[trigger] t[b].service && t[a].key == t[b].key) by {
                assert(p(v[i]));
                if a != i && b != i {
                    assert(t[a] == v[a] && t[b] == v[b]);
                } else if a == i {
                    assert(t[b] == v[b]);
                    assert(!(v[i].service == v[b].service && v[i].key == v[b].key));
                } else {
                    assert(t[a] == v[a]);
                    assert(!(v[a].service == v[i].service && v[a].key == v[i].key));
                }
            }
        },
        None => {
            assert forall|a: int, b: int|
                0 <= a < t.len() && 0 <= b < t.len() && a != b implies !(#[trigger] t[a].service
                == #[trigger] t[b].service && t[a].key == t[b].key) by {
                if a < v.len() && b < v.len() {
                    assert(t[a] == v[a] && t[b] == v[b]);
                } else if a == v.len() {
                    assert(t[b] == v[b]);
                    if t[a].service == t[b].service && t[a].key == t[b].key {
                        assert(p(v[b]));
                    }
                } else {
                    assert(t[a] == v[a]);
                    if t[a].service == t[b].service && t[a].key == t[b].key {
                        assert(p(v[a]));
                    }
                }
            }
        },
    }
}

} // verus!
