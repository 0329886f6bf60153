//! First-match search over sequences, shared by the vault and the registry.
use vstd::prelude::*;

verus! {

/// `i` is the position of the first element of `s` that satisfies `p`.
pub open spec fn is_first<A>(s: Seq<A>, p: spec_fn(A) -> bool, i: int) -> bool {
    &&& 0 <= i < s.len()
    &&& p(s[i])
    &&& forall|j: int| 0 <= j < i ==> !p(#[trigger] s[j])
}

/// Some element of `s` satisfies `p`.
pub open spec fn some_match<A>(s: Seq<A>, p: spec_fn(A) -> bool) -> bool {
    exists|i: int| 0 <= i < s.len() && p(#[trigger] s[i])
}

/// The position of the first element of `s` that satisfies `p`, if any.
pub open spec fn first_index<A>(s: Seq<A>, p: spec_fn(A) -> bool) -> Option<int> {
    if exists|i: int| is_first(s, p, i) {
        Some(choose|i: int| is_first(s, p, i))
    } else {
        None
    }
}

pub proof fn lemma_first_unique<A>(s: Seq<A>, p: spec_fn(A) -> bool, i: int, j: int)
    requires
        is_first(s, p, i),
        is_first(s, p, j),
    ensures
        i == j,
{
    if i < j {
        assert(!p(s[i]));
    } else if j < i {
        assert(!p(s[j]));
    }
}

pub proof fn lemma_first_exists<A>(s: Seq<A>, p: spec_fn(A) -> bool, i: int)
    requires
        0 <= i < s.len(),
        p(s[i]),
    ensures
        exists|k: int| is_first(s, p, k),
    decreases i,
{
    if forall|j: int| 0 <= j < i ==> !p(#[trigger] s[j]) {
        assert(is_first(s, p, i));
    } else {
        let j = choose|j: int| 0 <= j < i && p(#[trigger] s[j]);
        lemma_first_exists(s, p, j);
    }
}

/// `first_index` is the first match, and it is absent exactly when nothing matches.
pub proof fn lemma_first_index<A>(s: Seq<A>, p: spec_fn(A) -> bool)
    ensures
        match first_index(s, p) {
            Some(i) => is_first(s, p, i),
            None => !some_match(s, p),
        },
        first_index(s, p) is Some <==> some_match(s, p),
{
    if some_match(s, p) {
        let i = choose|i: int| 0 <= i < s.len() && p(#[trigger] s[i]);
        lemma_first_exists(s, p, i);
    }
    if first_index(s, p) is Some {
        let i = first_index(s, p)->0;
        assert(is_first(s, p, i));
        assert(p(s[i]));
    }
}

/// A found first match determines `first_index`.
pub proof fn lemma_first_index_is<A>(s: Seq<A>, p: spec_fn(A) -> bool, i: int)
    requires
        is_first(s, p, i),
    ensures
        first_index(s, p) == Some(i),
{
    lemma_first_index(s, p);
    lemma_first_unique(s, p, i, first_index(s, p)->0);
}

/// Appending an element changes the first match only when there was none.
pub proof fn lemma_first_index_push<A>(s: Seq<A>, x: A, p: spec_fn(A) -> bool)
    ensures
        first_index(s.push(x), p) == (match first_index(s, p) {
            Some(i) => Some(i),
            None => if p(x) { Some(s.len() as int) } else { None },
        }),
{
    let t = s.push(x);
    lemma_first_index(s, p);
    lemma_first_index(t, p);
    match first_index(s, p) {
        Some(i) => {
            assert(t[i] == s[i]);
            assert forall|j: int| 0 <= j < i implies !p(#[trigger] t[j]) by {
                assert(t[j] == s[j]);
                assert(!p(s[j]));
            }
            assert(is_first(t, p, i));
            lemma_first_index_is(t, p, i);
        },
        None => {
            assert forall|j: int| 0 <= j < s.len() implies !p(#[trigger] t[j]) by {
                assert(t[j] == s[j]);
                if p(s[j]) {
                    assert(some_match(s, p));
                }
            }
            if p(x) {
                assert(t[s.len() as int] == x);
                assert(is_first(t, p, s.len() as int));
                lemma_first_index_is(t, p, s.len() as int);
            } else {
                if some_match(t, p) {
                    let k = choose|k: int| 0 <= k < t.len() && p(#[trigger] t[k]);
                    if k < s.len() {
                        assert(!p(t[k]));
                    } else {
                        assert(t[k] == x);
                    }
                }
            }
        },
    }
}

/// Nothing in a sequence filtered by `q` matches `p` when `p` excludes `q`.
pub proof fn lemma_filter_no_match<A>(s: Seq<A>, q: spec_fn(A) -> bool, p: spec_fn(A) -> bool)
    requires
        forall|a: A| #[trigger] p(a) ==> !q(a),
    ensures
        !some_match(s.filter(q), p),
        first_index(s.filter(q), p) is None,
{
    broadcast use vstd::seq_lib::group_filter_ensures;
    let f = s.filter(q);
    if some_match(f, p) {
        let k = choose|k: int| 0 <= k < f.len() && p(#[trigger] f[k]);
        assert(q(f[k]));
    }
    lemma_first_index(f, p);
}

/// Two sequences of one length that agree, position by position, on `p`
/// have the same first match.
pub proof fn lemma_first_index_agree<A>(s: Seq<A>, t: Seq<A>, p: spec_fn(A) -> bool)
    requires
        s.len() == t.len(),
        forall|j: int| 0 <= j < s.len() ==> p(#[trigger] s[j]) == p(t[j]),
    ensures
        first_index(s, p) == first_index(t, p),
{
    lemma_first_index(s, p);
    lemma_first_index(t, p);
    match first_index(s, p) {
        Some(i) => {
            assert(p(t[i]));
            assert forall|j: int| 0 <= j < i implies !p(#[trigger] t[j]) by {
                assert(!p(s[j]));
            }
            assert(is_first(t, p, i));
            lemma_first_index_is(t, p, i);
        },
        None => {
            if some_match(t, p) {
                let k = choose|k: int| 0 <= k < t.len() && p(#[trigger] t[k]);
                assert(p(s[k]));
                assert(some_match(s, p));
            }
        },
    }
}

/// The first element of `s` that satisfies `p`, if any.
pub open spec fn find_first<A>(s: Seq<A>, p: spec_fn(A) -> bool) -> Option<A> {
    match first_index(s, p) {
        Some(i) => Some(s[i]),
        None => None,
    }
}

/// `s` with its first element satisfying `p` replaced by `e`, or with `e`
/// appended when no element satisfies `p`.
pub open spec fn replace_first<A>(s: Seq<A>, p: spec_fn(A) -> bool, e: A) -> Seq<A> {
    match first_index(s, p) {
        Some(i) => s.update(i, e),
        None => s.push(e),
    }
}

/// After `replace_first` with an element that satisfies `p`, the first match
/// of `p` is that element.
pub proof fn lemma_replace_first_finds<A>(s: Seq<A>, p: spec_fn(A) -> bool, e: A)
    requires
        p(e),
    ensures
        find_first(replace_first(s, p, e), p) == Some(e),
{
    lemma_first_index(s, p);
    match first_index(s, p) {
        Some(i) => {
            let t = s.update(i, e);
            assert forall|j: int| 0 <= j < i implies !p(#[trigger] t[j]) by {
                assert(t[j] == s[j]);
                assert(!p(s[j]));
            }
            assert(is_first(t, p, i));
            lemma_first_index_is(t, p, i);
        },
        None => {
            lemma_first_index_push(s, e, p);
        },
    }
}

/// `replace_first` on `p` leaves the first match of a disjoint predicate `q` unchanged.
pub proof fn lemma_replace_first_others<A>(s: Seq<A>, p: spec_fn(A) -> bool, e: A, q: spec_fn(A) -> bool)
    requires
        forall|a: A| #[trigger] q(a) ==> !p(a),
        !q(e),
    ensures
        find_first(replace_first(s, p, e), q) == find_first(s, q),
{
    lemma_first_index(s, p);
    match first_index(s, p) {
        Some(i) => {
            let t = s.update(i, e);
            assert(p(s[i]));
            assert forall|j: int| 0 <= j < s.len() implies #[trigger] q(s[j]) == q(t[j]) by {
                if j != i {
                    assert(t[j] == s[j]);
                }
            }
            lemma_first_index_agree(s, t, q);
            lemma_first_index(s, q);
            match first_index(s, q) {
                Some(k) => {
                    assert(q(s[k]));
                    assert(k != i);
                    assert(t[k] == s[k]);
                },
                None => {},
            }
        },
        None => {
            let t = s.push(e);
            lemma_first_index_push(s, e, q);
            lemma_first_index(s, q);
            match first_index(s, q) {
                Some(k) => {
                    assert(t[k] == s[k]);
                },
                None => {},
            }
        },
    }
}

/// Filtering out what `p` matches leaves the first match of a disjoint `q` unchanged.
pub proof fn lemma_filter_keeps_others<A>(s: Seq<A>, keep: spec_fn(A) -> bool, q: spec_fn(A) -> bool)
    requires
        forall|a: A| #[trigger] q(a) ==> keep(a),
    ensures
        find_first(s.filter(keep), q) == find_first(s, q),
    decreases s.len(),
{
    if s.len() == 0 {
        reveal(Seq::filter);
        assert(s.filter(keep) =~= s);
    } else {
        let w = s.drop_last();
        let x = s.last();
        assert(s =~= w.push(x));
        lemma_filter_keeps_others(w, keep, q);
        w.lemma_filter_push(x, keep);
        let fw = w.filter(keep);
        lemma_first_index_push(w, x, q);
        lemma_first_index(w, q);
        lemma_first_index(fw, q);
        if keep(x) {
            lemma_first_index_push(fw, x, q);
            match first_index(fw, q) {
                Some(k) => {
                    assert(fw.push(x)[k] == fw[k]);
                },
                None => {},
            }
        } else {
            assert(!q(x));
        }
        match first_index(w, q) {
            Some(k) => {
                assert(w.push(x)[k] == w[k]);
            },
            None => {},
        }
    }
}

} // verus!
