//! Text scanning used by the import parsers: whitespace, trimming, lines and
//! fields, each with the meaning std gives the method of the same name.
use vstd::prelude::*;
use crate::text::chars_of;

verus! {

/// Unicode `White_Space`, the property `char::is_whitespace` tests.
pub open spec fn unicode_whitespace(c: char) -> bool {
    ||| '\t' <= c <= '\r'
    ||| c == ' '
    ||| c == '\u{85}'
    ||| c == '\u{A0}'
    ||| c == '\u{1680}'
    ||| '\u{2000}' <= c <= '\u{200A}'
    ||| c == '\u{2028}'
    ||| c == '\u{2029}'
    ||| c == '\u{202F}'
    ||| c == '\u{205F}'
    ||| c == '\u{3000}'
}

/// Whether `c` is Unicode whitespace.
pub fn is_whitespace(c: char) -> (r: bool)
    ensures
        r == unicode_whitespace(c),
{
    ('\t' <= c && c <= '\r') || c == ' ' || c == '\u{85}' || c == '\u{A0}' || c == '\u{1680}' || ('\u{2000}' <= c
        && c <= '\u{200A}') || c == '\u{2028}' || c == '\u{2029}' || c == '\u{202F}' || c == '\u{205F}' || c
        == '\u{3000}'
}

/// The text without its leading whitespace (`str::trim_start`).
pub open spec fn trim_start(s: Seq<char>) -> Seq<char>
    decreases s.len(),
{
    if s.len() > 0 && unicode_whitespace(s[0]) {
        trim_start(s.drop_first())
    } else {
        s
    }
}

/// The text without its trailing whitespace (`str::trim_end`).
pub open spec fn trim_end(s: Seq<char>) -> Seq<char>
    decreases s.len(),
{
    if s.len() > 0 && unicode_whitespace(s.last()) {
        trim_end(s.drop_last())
    } else {
        s
    }
}

/// The text without leading and trailing whitespace (`str::trim`).
pub open spec fn trim(s: Seq<char>) -> Seq<char> {
    trim_end(trim_start(s))
}

proof fn lemma_trim_start(s: Seq<char>, i: int)
    requires
        0 <= i <= s.len(),
        forall|k: int| 0 <= k < i ==> unicode_whitespace(#[trigger] s[k]),
        i == s.len() || !unicode_whitespace(s[i]),
    ensures
        trim_start(s) == s.subrange(i, s.len() as int),
    decreases i,
{
    if i == 0 {
        assert(s.subrange(0, s.len() as int) =~= s);
    } else {
        let t = s.drop_first();
        assert(unicode_whitespace(s[0]));
        assert forall|k: int| 0 <= k < i - 1 implies unicode_whitespace(#[trigger] t[k]) by {
            assert(t[k] == s[k + 1]);
        }
        if i < s.len() {
            assert(t[i - 1] == s[i]);
        }
        lemma_trim_start(t, i - 1);
        assert(t.subrange(i - 1, t.len() as int) =~= s.subrange(i, s.len() as int));
    }
}

proof fn lemma_trim_end(s: Seq<char>, j: int)
    requires
        0 <= j <= s.len(),
        forall|k: int| j <= k < s.len() ==> unicode_whitespace(#[trigger] s[k]),
        j == 0 || !unicode_whitespace(s[j - 1]),
    ensures
        trim_end(s) == s.subrange(0, j),
    decreases s.len() - j,
{
    if j == s.len() {
        assert(s.subrange(0, j) =~= s);
    } else {
        let t = s.drop_last();
        assert(unicode_whitespace(s.last()));
        assert forall|k: int| j <= k < t.len() implies unicode_whitespace(#[trigger] t[k]) by {
            assert(t[k] == s[k]);
        }
        if j > 0 {
            assert(t[j - 1] == s[j - 1]);
        }
        lemma_trim_end(t, j);
        assert(t.subrange(0, j) =~= s.subrange(0, j));
    }
}

/// Positions `[a, b)` of the text once trimmed of whitespace at both ends.
fn trim_bounds(c: &Vec<char>) -> (r: (usize, usize))
    ensures
        r.0 <= r.1 <= c@.len(),
        trim_start(c@) == c@.subrange(r.0 as int, c@.len() as int),
        trim(c@) == c@.subrange(r.0 as int, r.1 as int),
{
    let n = c.len();
    let mut i: usize = 0;
    while i < n && is_whitespace(c[i])
        invariant
            n == c@.len(),
            i <= n,
            forall|k: int| 0 <= k < i ==> unicode_whitespace(#[trigger] c@[k]),
        decreases n - i,
    {
        i = i + 1;
    }
    proof {
        lemma_trim_start(c@, i as int);
    }
    let mut j: usize = n;
    while j > i && is_whitespace(c[j - 1])
        invariant
            n == c@.len(),
            i <= j <= n,
            forall|k: int| j <= k < n ==> unicode_whitespace(#[trigger] c@[k]),
        decreases j,
    {
        j = j - 1;
    }
    proof {
        let t = c@.subrange(i as int, n as int);
        assert forall|k: int| j - i <= k < t.len() implies unicode_whitespace(#[trigger] t[k]) by {
            assert(t[k] == c@[i + k]);
        }
        if j > i {
            assert(t[j - i - 1] == c@[j - 1]);
        }
        lemma_trim_end(t, j - i);
        assert(t.subrange(0, j - i) =~= c@.subrange(i as int, j as int));
    }
    (i, j)
}

/// The characters of `c` in `[a, b)` as a string.
fn collect(c: &Vec<char>, a: usize, b: usize) -> (r: String)
    requires
        a <= b <= c@.len(),
    ensures
        r@ == c@.subrange(a as int, b as int),
{
    let mut r = String::new();
    let mut i = a;
    while i < b
        invariant
            a <= i <= b <= c@.len(),
            r@ == c@.subrange(a as int, i as int),
        decreases b - i,
    {
        crate::text::push_char(&mut r, c[i]);
        assert(r@ =~= c@.subrange(a as int, i + 1));
        i = i + 1;
    }
    r
}

/// `str::trim`: the text without leading and trailing whitespace.
pub fn trim_str(s: &str) -> (r: String)
    ensures
        r@ == trim(s@),
{
    let c = chars_of(s);
    let (a, b) = trim_bounds(&c);
    collect(&c, a, b)
}

/// `str::trim_start`: the text without leading whitespace.
pub fn trim_start_str(s: &str) -> (r: String)
    ensures
        r@ == trim_start(s@),
{
    let c = chars_of(s);
    let (a, _) = trim_bounds(&c);
    collect(&c, a, c.len())
}

/// A line with the carriage return that preceded its line feed removed.
pub open spec fn strip_cr(l: Seq<char>) -> Seq<char> {
    if l.len() > 0 && l.last() == '\r' {
        l.drop_last()
    } else {
        l
    }
}

/// Scanning text from the left: the lines ended by a line feed so far, and
/// the line being read.
pub open spec fn lines_scan(s: Seq<char>) -> (Seq<Seq<char>>, Seq<char>)
    decreases s.len(),
{
    if s.len() == 0 {
        (Seq::empty(), Seq::empty())
    } else {
        let (done, cur) = lines_scan(s.drop_last());
        if s.last() == '\n' {
            (done.push(strip_cr(cur)), Seq::empty())
        } else {
            (done, cur.push(s.last()))
        }
    }
}

/// The lines of a text (`str::lines`): split at `\n` or `\r\n`, with no
/// empty line after a final line ending.
pub open spec fn lines(s: Seq<char>) -> Seq<Seq<char>> {
    let (done, cur) = lines_scan(s);
    if cur.len() > 0 {
        done.push(cur)
    } else {
        done
    }
}

/// Removes a final carriage return.
fn strip_cr_string(l: String) -> (r: String)
    ensures
        r@ == strip_cr(l@),
{
    let mut l = l;
    let n = l.as_str().unicode_len();
    if n > 0 && l.as_str().get_char(n - 1) == '\r' {
        crate::text::pop_char(&mut l);
    }
    l
}

/// `str::lines`: the lines of a text.
pub fn split_lines(s: &str) -> (r: Vec<String>)
    ensures
        r.deep_view() == lines(s@),
{
    let c = chars_of(s);
    let n = c.len();
    let mut done: Vec<String> = Vec::new();
    let mut cur = String::new();
    for i in 0..n
        invariant
            n == c@.len(),
            c@ == s@,
            (done.deep_view(), cur@) == lines_scan(s@.take(i as int)),
    {
        let ch = c[i];
        proof {
            assert(s@.take(i + 1).drop_last() =~= s@.take(i as int));
        }
        if ch == '\n' {
            let line = strip_cr_string(cur);
            done.push(line);
            cur = String::new();
            proof {
                assert(done.deep_view() =~= lines_scan(s@.take(i as int)).0.push(strip_cr(lines_scan(s@.take(i as int)).1)));
                assert(cur@ =~= Seq::<char>::empty());
            }
        } else {
            crate::text::push_char(&mut cur, ch);
        }
    }
    assert(s@.take(n as int) =~= s@);
    if cur.as_str().unicode_len() > 0 {
        done.push(cur);
        assert(done.deep_view() =~= lines_scan(s@).0.push(lines_scan(s@).1));
    }
    done
}

/// `s` begins with `p` (`str::starts_with`).
pub open spec fn starts_with(s: Seq<char>, p: Seq<char>) -> bool {
    p.len() <= s.len() && s.take(p.len() as int) == p
}

/// Whether `s` begins with `p`.
pub fn starts_with_str(s: &str, p: &str) -> (r: bool)
    ensures
        r == starts_with(s@, p@),
{
    let n = s.unicode_len();
    let m = p.unicode_len();
    if m > n {
        return false;
    }
    let mut i: usize = 0;
    while i < m
        invariant
            n == s@.len(),
            m == p@.len(),
            m <= n,
            i <= m,
            forall|k: int| 0 <= k < i ==> s@[k] == p@[k],
        decreases m - i,
    {
        if s.get_char(i) != p.get_char(i) {
            assert(s@.take(m as int)[i as int] != p@[i as int]);
            return false;
        }
        i = i + 1;
    }
    assert(s@.take(m as int) =~= p@);
    true
}

/// `q` occurs in `s` at position `i`.
pub open spec fn occurs_at(s: Seq<char>, q: Seq<char>, i: int) -> bool {
    0 <= i && i + q.len() <= s.len() && s.subrange(i, i + q.len()) == q
}

/// `i` is the first position at which `q` occurs in `s`.
pub open spec fn first_at(s: Seq<char>, q: Seq<char>, i: int) -> bool {
    occurs_at(s, q, i) && forall|j: int| 0 <= j < i ==> !#[trigger] occurs_at(s, q, j)
}

/// The first position at which `q` occurs in `s`, if any (`str::find`).
pub open spec fn first_occurrence(s: Seq<char>, q: Seq<char>) -> Option<int> {
    if exists|i: int| first_at(s, q, i) {
        Some(choose|i: int| first_at(s, q, i))
    } else {
        None
    }
}

proof fn lemma_first_at_unique(s: Seq<char>, q: Seq<char>, i: int, j: int)
    requires
        first_at(s, q, i),
        first_at(s, q, j),
    ensures
        i == j,
{
    if i < j {
        assert(occurs_at(s, q, i));
    } else if j < i {
        assert(occurs_at(s, q, j));
    }
}

/// Where `q` first occurs in `s`.
pub fn find_str(s: &Vec<char>, q: &Vec<char>) -> (r: Option<usize>)
    ensures
        r matches Some(i) ==> first_occurrence(s@, q@) == Some(i as int),
        r is None ==> first_occurrence(s@, q@) is None,
{
    let n = s.len();
    let m = q.len();
    if m > n {
        assert(!exists|i: int| first_at(s@, q@, i));
        return None;
    }
    let mut i: usize = 0;
    while i <= n - m
        invariant
            n == s@.len(),
            m == q@.len(),
            m <= n,
            i <= n - m + 1,
            forall|j: int| 0 <= j < i ==> !#[trigger] occurs_at(s@, q@, j),
        decreases n - m + 1 - i,
    {
        let mut k: usize = 0;
        let mut ok = true;
        while k < m
            invariant
                n == s@.len(),
                m == q@.len(),
                i + m <= n,
                k <= m,
                ok == (forall|t: int| 0 <= t < k ==> s@[i + t] == q@[t]),
            decreases m - k,
        {
            if s[i + k] != q[k] {
                ok = false;
            }
            k = k + 1;
        }
        if ok {
            proof {
                assert(s@.subrange(i as int, i + m) =~= q@);
                assert(first_at(s@, q@, i as int));
                lemma_first_at_unique(s@, q@, i as int, choose|x: int| first_at(s@, q@, x));
            }
            return Some(i);
        }
        proof {
            if occurs_at(s@, q@, i as int) {
                assert forall|t: int| 0 <= t < m implies s@[i + t] == q@[t] by {
                    assert(s@.subrange(i as int, i + m)[t] == s@[i + t]);
                }
            }
        }
        i = i + 1;
    }
    proof {
        assert forall|x: int| !first_at(s@, q@, x) by {
            if x > n - m {
                assert(!occurs_at(s@, q@, x));
            }
        }
    }
    None
}

/// The text after the first occurrence of `q` up to the next one: the
/// second piece of `str::split` with the pattern `q`, if there is one.
pub open spec fn second_piece(s: Seq<char>, q: Seq<char>) -> Option<Seq<char>> {
    match first_occurrence(s, q) {
        None => None,
        Some(i) => {
            let rest = s.skip(i + q.len());
            match first_occurrence(rest, q) {
                Some(j) => Some(rest.take(j)),
                None => Some(rest),
            }
        },
    }
}

/// The second piece of `s` split at `q`.
pub fn second_piece_of(s: &Vec<char>, q: &Vec<char>) -> (r: Option<Vec<char>>)
    ensures
        match r {
            Some(p) => second_piece(s@, q@) == Some(p@),
            None => second_piece(s@, q@) is None,
        },
{
    let n = s.len();
    match find_str(s, q) {
        None => None,
        Some(i) => {
            proof {
                let w = choose|x: int| first_at(s@, q@, x);
                assert(first_at(s@, q@, w));
                assert(w == i);
                assert(occurs_at(s@, q@, i as int));
                assert(i + q@.len() <= s@.len());
            }
            let start = i + q.len();
            let mut rest: Vec<char> = Vec::new();
            let mut k = start;
            while k < s.len()
                invariant
                    start <= k <= s@.len(),
                    rest@ == s@.subrange(start as int, k as int),
                decreases s@.len() - k,
            {
                rest.push(s[k]);
                assert(rest@ =~= s@.subrange(start as int, k + 1));
                k = k + 1;
            }
            assert(rest@ =~= s@.skip(start as int));
            match find_str(&rest, q) {
                Some(j) => {
                    let mut p: Vec<char> = Vec::new();
                    let mut t: usize = 0;
                    proof {
                        let w = choose|x: int| first_at(rest@, q@, x);
                        assert(first_at(rest@, q@, w));
                    }
                    while t < j
                        invariant
                            j <= rest@.len(),
                            t <= j,
                            p@ == rest@.take(t as int),
                        decreases j - t,
                    {
                        p.push(rest[t]);
                        assert(p@ =~= rest@.take(t + 1));
                        t = t + 1;
                    }
                    Some(p)
                },
                None => Some(rest),
            }
        },
    }
}

/// The text before the first `c`, or the whole text: the first piece of
/// `str::split` with the pattern `c`.
pub open spec fn before_char(s: Seq<char>, c: char) -> Seq<char> {
    match first_occurrence(s, seq![c]) {
        Some(i) => s.take(i),
        None => s,
    }
}

/// The first piece of `s` split at `c`.
pub fn before_char_str(s: &str, c: char) -> (r: String)
    ensures
        r@ == before_char(s@, c),
{
    let v = chars_of(s);
    let mut q: Vec<char> = Vec::new();
    q.push(c);
    assert(q@ =~= seq![c]);
    match find_str(&v, &q) {
        Some(i) => {
            proof {
                let w = choose|x: int| first_at(v@, q@, x);
                assert(first_at(v@, q@, w));
            }
            collect(&v, 0, i)
        },
        None => String::from_str(s),
    }
}

/// The first whitespace-separated word (`split_whitespace().next()`).
pub open spec fn first_word(s: Seq<char>) -> Option<Seq<char>> {
    let t = trim_start(s);
    if t.len() == 0 {
        None
    } else {
        Some(
            match crate::model::lookup::first_index(t, |x: char| unicode_whitespace(x)) {
                Some(i) => t.take(i),
                None => t,
            },
        )
    }
}

/// The first whitespace-separated word of `c`.
pub fn first_word_of(c: &Vec<char>) -> (r: Option<String>)
    ensures
        match r {
            Some(w) => first_word(c@) == Some(w@),
            None => first_word(c@) is None,
        },
{
    let (a, _) = trim_bounds(c);
    let n = c.len();
    if a == n {
        return None;
    }
    let ghost t = c@.subrange(a as int, n as int);
    let ghost p = |x: char| unicode_whitespace(x);
    let mut j = a;
    while j < n && !is_whitespace(c[j])
        invariant
            a <= j <= n,
            n == c@.len(),
            t == c@.subrange(a as int, n as int),
            forall|k: int| a <= k < j ==> !unicode_whitespace(#[trigger] c@[k]),
        decreases n - j,
    {
        j = j + 1;
    }
    proof {
        if j < n {
            assert(p(t[j - a]));
            assert forall|k: int| 0 <= k < j - a implies !p(#[trigger] t[k]) by {
                assert(t[k] == c@[a + k]);
            }
            crate::model::lookup::lemma_first_index_is(t, p, j - a);
            assert(t.take(j - a) =~= c@.subrange(a as int, j as int));
        } else {
            assert forall|k: int| 0 <= k < t.len() implies !p(#[trigger] t[k]) by {
                assert(t[k] == c@[a + k]);
            }
            crate::model::lookup::lemma_first_index(t, p);
            assert(t =~= c@.subrange(a as int, j as int));
        }
    }
    Some(collect(c, a, j))
}

/// The first value `f` gives for a line, scanning the lines in order
/// (`Iterator::find_map`).
pub open spec fn find_map(ls: Seq<Seq<char>>, f: spec_fn(Seq<char>) -> Option<Seq<char>>) -> Option<Seq<char>>
    decreases ls.len(),
{
    if ls.len() == 0 {
        None
    } else if f(ls[0]) is Some {
        f(ls[0])
    } else {
        find_map(ls.drop_first(), f)
    }
}

/// One step of a scan: the lines from `i` on give what the line at `i`
/// gives, or else what the lines after it give.
pub proof fn lemma_find_map_step(ls: Seq<Seq<char>>, f: spec_fn(Seq<char>) -> Option<Seq<char>>, i: int)
    requires
        0 <= i < ls.len(),
    ensures
        find_map(ls.skip(i), f) == (if f(ls[i]) is Some {
            f(ls[i])
        } else {
            find_map(ls.skip(i + 1), f)
        }),
{
    assert(ls.skip(i)[0] == ls[i]);
    assert(ls.skip(i).drop_first() =~= ls.skip(i + 1));
}

/// Scanning no lines finds nothing; scanning from the start scans them all.
pub proof fn lemma_find_map_ends(ls: Seq<Seq<char>>, f: spec_fn(Seq<char>) -> Option<Seq<char>>)
    ensures
        find_map(ls.skip(ls.len() as int), f) is None,
        ls.skip(0) == ls,
{
    assert(ls.skip(ls.len() as int) =~= Seq::<Seq<char>>::empty());
    assert(ls.skip(0) =~= ls);
}

} // verus!
