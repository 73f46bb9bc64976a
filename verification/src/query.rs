//! Lookups in decoded query pairs and in `&`-separated parameter lists.
use vstd::prelude::*;
use crate::text::{chars_of, find_chars, occurs_at, opt_view, spec_find, str_eq, string_of, find_from};
use crate::web::pairs_view;

verus! {

broadcast use vstd::string::group_string_axioms;

/// The value of the last pair whose key is `k` (what a map collected from
/// the pairs holds for `k`).
pub open spec fn qget(pairs: Seq<(Seq<char>, Seq<char>)>, k: Seq<char>) -> Option<Seq<char>>
    decreases pairs.len(),
{
    if pairs.len() == 0 {
        None
    } else if pairs.last().0 == k {
        Some(pairs.last().1)
    } else {
        qget(pairs.drop_last(), k)
    }
}

/// The value of the last pair whose key is `key`.
pub fn query_get(pairs: &Vec<(String, String)>, key: &str) -> (r: Option<String>)
    ensures
        opt_view(r) == qget(pairs_view(pairs@), key@),
{
    let ghost pv = pairs_view(pairs@);
    assert(pv.take(pairs.len() as int) == pv);
    let mut i = pairs.len();
    while i > 0
        invariant
            pv == pairs_view(pairs@),
            i <= pairs.len(),
            qget(pv, key@) == qget(pv.take(i as int), key@),
        decreases i,
    {
        assert(pv.take(i as int).drop_last() == pv.take(i - 1));
        i -= 1;
        if str_eq(pairs[i].0.as_str(), key) {
            return Some(pairs[i].1.clone());
        }
    }
    assert(pv.take(0) == Seq::<(Seq<char>, Seq<char>)>::empty());
    None
}

/// The part of `s` before its first `c`, or all of `s`.
pub open spec fn before_char(s: Seq<char>, c: char) -> Seq<char> {
    match spec_find(s, seq![c]) {
        Some(i) => s.take(i),
        None => s,
    }
}

/// The part of `s` after its first `c`, if `s` holds one.
pub open spec fn after_char(s: Seq<char>, c: char) -> Option<Seq<char>> {
    match spec_find(s, seq![c]) {
        Some(i) => Some(s.skip(i + 1)),
        None => None,
    }
}

/// The pieces of `s` between occurrences of `c` (`str::split`).
pub open spec fn split_on(s: Seq<char>, c: char) -> Seq<Seq<char>>
    decreases s.len(),
{
    match spec_find(s, seq![c]) {
        Some(i) => {
            if 0 <= i < s.len() {
                seq![s.take(i)] + split_on(s.skip(i + 1), c)
            } else {
                seq![s]
            }
        },
        None => seq![s],
    }
}

/// The part of `s` before its first `c`, or all of `s`.
pub fn before_char_exec(s: &str, c: char) -> (r: String)
    ensures
        r@ == before_char(s@, c),
{
    let v = chars_of(s);
    let p = vec![c];
    assert(p@ == seq![c]);
    match find_chars(&v, &p) {
        Some(i) => {
            proof {
                lemma_find_in_bounds(v@, p@);
            }
            string_of(slice_take(&v, i))
        },
        None => string_of(&v),
    }
}

/// The part of `s` after its first `c`, if any.
pub fn after_char_exec(s: &str, c: char) -> (r: Option<String>)
    ensures
        opt_view(r) == after_char(s@, c),
{
    let v = chars_of(s);
    let p = vec![c];
    assert(p@ == seq![c]);
    match find_chars(&v, &p) {
        Some(i) => {
            proof {
                lemma_find_in_bounds(v@, p@);
            }
            assert(i + 1 <= v.len());
            Some(string_of(slice_skip(&v, i + 1)))
        },
        None => None,
    }
}

/// A found position leaves room for the pattern.
pub proof fn lemma_find_in_bounds(s: Seq<char>, p: Seq<char>)
    ensures
        spec_find(s, p) matches Some(i) ==> 0 <= i && i + p.len() <= s.len() && occurs_at(s, p, i),
{
    lemma_find_from_in_bounds(s, p, 0);
}

/// A position found from `k` on is at least `k` and leaves room for the pattern.
pub proof fn lemma_find_from_in_bounds(s: Seq<char>, p: Seq<char>, k: int)
    ensures
        find_from(s, p, k) matches Some(i) ==> k <= i && 0 <= i && i + p.len() <= s.len() && occurs_at(s, p, i),
    decreases s.len() + 1 - k,
{
    if k < 0 || k + p.len() > s.len() {
    } else if occurs_at(s, p, k) {
    } else {
        lemma_find_from_in_bounds(s, p, k + 1);
    }
}

/// The first `n` elements of a slice.
pub fn slice_take(v: &[char], n: usize) -> (r: &[char])
    requires
        n <= v@.len(),
    ensures
        r@ == v@.take(n as int),
{
    let (a, _) = v.split_at(n);
    a
}

/// A slice without its first `n` elements.
pub fn slice_skip(v: &[char], n: usize) -> (r: &[char])
    requires
        n <= v@.len(),
    ensures
        r@ == v@.skip(n as int),
{
    let (_, b) = v.split_at(n);
    b
}

/// The value for `k` among `key=value` pieces, the last piece winning
/// (pieces without `=` are ignored).
pub open spec fn segment_get(segs: Seq<Seq<char>>, k: Seq<char>) -> Option<Seq<char>>
    decreases segs.len(),
{
    if segs.len() == 0 {
        None
    } else if after_char(segs.last(), '=') is Some && before_char(segs.last(), '=') == k {
        after_char(segs.last(), '=')
    } else {
        segment_get(segs.drop_last(), k)
    }
}

/// The pieces of `s` between occurrences of `c`.
pub fn split_char(s: &str, c: char) -> (r: Vec<String>)
    ensures
        crate::text::views(r@) == split_on(s@, c),
    decreases s@.len(),
{
    let v = chars_of(s);
    let p = vec![c];
    assert(p@ == seq![c]);
    match find_chars(&v, &p) {
        Some(i) => {
            proof {
                lemma_find_in_bounds(v@, p@);
            }
            assert(i + 1 <= v.len());
            let head = string_of(slice_take(&v, i));
            let rest = string_of(slice_skip(&v, i + 1));
            let mut tail = split_char(rest.as_str(), c);
            let mut r: Vec<String> = Vec::new();
            r.push(head);
            let ghost t = tail@;
            r.append(&mut tail);
            assert(crate::text::views(r@) == seq![head@] + crate::text::views(t));
            r
        },
        None => {
            let mut r: Vec<String> = Vec::new();
            r.push(crate::text::owned(s));
            assert(crate::text::views(r@) == seq![s@]);
            r
        },
    }
}

/// The value for `key` among `key=value` pieces, the last piece winning.
pub fn segments_get(segs: &Vec<String>, key: &str) -> (r: Option<String>)
    ensures
        opt_view(r) == segment_get(crate::text::views(segs@), key@),
{
    let ghost sv = crate::text::views(segs@);
    assert(sv.take(segs.len() as int) == sv);
    let mut i = segs.len();
    while i > 0
        invariant
            sv == crate::text::views(segs@),
            i <= segs.len(),
            segment_get(sv, key@) == segment_get(sv.take(i as int), key@),
        decreases i,
    {
        assert(sv.take(i as int).drop_last() == sv.take(i - 1));
        i -= 1;
        let seg = segs[i].as_str();
        if let Some(v) = after_char_exec(seg, '=') {
            let k = before_char_exec(seg, '=');
            if str_eq(k.as_str(), key) {
                return Some(v);
            }
        }
    }
    assert(sv.take(0) == Seq::<Seq<char>>::empty());
    None
}

/// `c` does not occur in `s` from position `k` on.
pub open spec fn free_of_from(s: Seq<char>, c: char, k: int) -> bool {
    forall|j: int| k <= j < s.len() ==> s[j] != c
}

/// A character that does not occur from `k` on is not found from there.
pub proof fn lemma_find_char_none(s: Seq<char>, c: char, k: int)
    requires
        0 <= k,
        free_of_from(s, c, k),
    ensures
        find_from(s, seq![c], k) is None,
    decreases s.len() + 1 - k,
{
    if k + 1 > s.len() {
    } else {
        assert(s.subrange(k, k + 1) == seq![s[k]]);
        assert(s[k] != c);
        if s.subrange(k, k + 1) == seq![c] {
            assert(s.subrange(k, k + 1)[0] == c);
        }
        assert(!occurs_at(s, seq![c], k));
        lemma_find_char_none(s, c, k + 1);
    }
}

/// Searching a concatenation for a character finds it in the first part
/// when it is there, else searches on from the second part.
pub proof fn lemma_find_char_concat(a: Seq<char>, b: Seq<char>, c: char, k: int)
    requires
        0 <= k <= a.len(),
    ensures
        find_from(a + b, seq![c], k) == match find_from(a, seq![c], k) {
            Some(j) => Some(j),
            None => find_from(a + b, seq![c], a.len() as int),
        },
    decreases a.len() + 1 - k,
{
    if k == a.len() {
        if k + 1 <= a.len() {
        }
    } else {
        let s = a + b;
        assert(s.subrange(k, k + 1) == a.subrange(k, k + 1));
        if occurs_at(a, seq![c], k) {
        } else {
            lemma_find_char_concat(a, b, c, k + 1);
        }
    }
}

} // verus!
