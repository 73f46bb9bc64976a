//! Stable sorting by a key made of a number and a string, the orders the
//! library lists its items in.
use vstd::prelude::*;

verus! {

/// A sort key: a number first, then a string, compared character by
/// character (which is also the byte order of their UTF-8 encodings).
#[derive(Debug)]
pub struct SortKey {
    pub major: u64,
    pub minor: Vec<char>,
}

/// A sort key as values.
pub struct SortKeyView {
    pub major: nat,
    pub minor: Seq<char>,
}

impl View for SortKey {
    type V = SortKeyView;

    open spec fn view(&self) -> SortKeyView {
        SortKeyView { major: self.major as nat, minor: self.minor@ }
    }
}

/// Lexicographic order on strings, by character.
pub open spec fn chars_le(a: Seq<char>, b: Seq<char>) -> bool
    decreases a.len(),
{
    if a.len() == 0 {
        true
    } else if b.len() == 0 {
        false
    } else if a[0] != b[0] {
        (a[0] as int) < (b[0] as int)
    } else {
        chars_le(a.drop_first(), b.drop_first())
    }
}

/// The order of sort keys: by number, then by string.
pub open spec fn key_le(a: SortKeyView, b: SortKeyView) -> bool {
    a.major < b.major || (a.major == b.major && chars_le(a.minor, b.minor))
}

/// `s` is in key order.
pub open spec fn sorted_by<T>(s: Seq<T>, kf: spec_fn(T) -> SortKeyView) -> bool {
    forall|i: int, j: int| 0 <= i < j < s.len() ==> key_le(#[trigger] kf(s[i]), #[trigger] kf(s[j]))
}

/// The elements of `s` whose key is `k`, in order.
pub open spec fn with_key<T>(s: Seq<T>, kf: spec_fn(T) -> SortKeyView, k: SortKeyView) -> Seq<T> {
    s.filter(key_is(kf, k))
}

/// Whether an element's key is `k`.
pub open spec fn key_is<T>(kf: spec_fn(T) -> SortKeyView, k: SortKeyView) -> spec_fn(T) -> bool {
    |t: T| kf(t) == k
}

/// `output` is `input` sorted by key, elements with equal keys keeping
/// their order: it is in key order, and for every key it holds the same
/// elements with that key in the same order.
pub open spec fn stable_sorted<T>(input: Seq<T>, output: Seq<T>, kf: spec_fn(T) -> SortKeyView) -> bool {
    &&& sorted_by(output, kf)
    &&& forall|k: SortKeyView| #[trigger] with_key(output, kf, k) == with_key(input, kf, k)
}

pub proof fn lemma_chars_le_total(a: Seq<char>, b: Seq<char>)
    ensures
        chars_le(a, b) || chars_le(b, a),
    decreases a.len(),
{
    if a.len() > 0 && b.len() > 0 && a[0] == b[0] {
        lemma_chars_le_total(a.drop_first(), b.drop_first());
    }
}

pub proof fn lemma_chars_le_antisymmetric(a: Seq<char>, b: Seq<char>)
    requires
        chars_le(a, b),
        chars_le(b, a),
    ensures
        a == b,
    decreases a.len(),
{
    if a.len() > 0 {
        lemma_chars_le_antisymmetric(a.drop_first(), b.drop_first());
        assert(a == seq![a[0]] + a.drop_first());
        assert(b == seq![b[0]] + b.drop_first());
    }
}

pub proof fn lemma_chars_le_transitive(a: Seq<char>, b: Seq<char>, c: Seq<char>)
    requires
        chars_le(a, b),
        chars_le(b, c),
    ensures
        chars_le(a, c),
    decreases a.len(),
{
    if a.len() > 0 && b.len() > 0 && c.len() > 0 && a[0] == b[0] && b[0] == c[0] {
        lemma_chars_le_transitive(a.drop_first(), b.drop_first(), c.drop_first());
    }
}

pub proof fn lemma_key_le_total(a: SortKeyView, b: SortKeyView)
    ensures
        key_le(a, b) || key_le(b, a),
{
    lemma_chars_le_total(a.minor, b.minor);
}

pub proof fn lemma_key_le_reflexive(a: SortKeyView)
    ensures
        key_le(a, a),
{
    lemma_chars_le_total(a.minor, a.minor);
}

pub proof fn lemma_key_le_transitive(a: SortKeyView, b: SortKeyView, c: SortKeyView)
    requires
        key_le(a, b),
        key_le(b, c),
    ensures
        key_le(a, c),
{
    if a.major == b.major && b.major == c.major {
        lemma_chars_le_transitive(a.minor, b.minor, c.minor);
    }
}

pub proof fn lemma_key_le_antisymmetric(a: SortKeyView, b: SortKeyView)
    requires
        key_le(a, b),
        key_le(b, a),
    ensures
        a == b,
{
    lemma_chars_le_antisymmetric(a.minor, b.minor);
}

proof fn lemma_filter_none<T>(s: Seq<T>, pred: spec_fn(T) -> bool)
    requires
        forall|i: int| 0 <= i < s.len() ==> !pred(#[trigger] s[i]),
    ensures
        s.filter(pred) == Seq::<T>::empty(),
    decreases s.len(),
{
    reveal(Seq::filter);
    if s.len() > 0 {
        assert(!pred(s[s.len() - 1]));
        lemma_filter_none(s.drop_last(), pred);
    }
}

/// Lexicographic order of two strings.
pub fn chars_le_exec(a: &Vec<char>, b: &Vec<char>) -> (r: bool)
    ensures
        r == chars_le(a@, b@),
{
    let mut i: usize = 0;
    assert(a@.skip(0) == a@ && b@.skip(0) == b@);
    while i < a.len() && i < b.len() && a[i] == b[i]
        invariant
            i <= a.len(),
            i <= b.len(),
            chars_le(a@, b@) == chars_le(a@.skip(i as int), b@.skip(i as int)),
        decreases a.len() - i,
    {
        assert(a@.skip(i as int).drop_first() == a@.skip(i + 1));
        assert(b@.skip(i as int).drop_first() == b@.skip(i + 1));
        i += 1;
    }
    if i == a.len() {
        true
    } else if i == b.len() {
        false
    } else {
        assert(a@.skip(i as int)[0] == a@[i as int]);
        assert(b@.skip(i as int)[0] == b@[i as int]);
        a[i] < b[i]
    }
}

/// The order of two sort keys.
pub fn key_le_exec(a: &SortKey, b: &SortKey) -> (r: bool)
    ensures
        r == key_le(a@, b@),
{
    if a.major < b.major {
        true
    } else if a.major == b.major {
        chars_le_exec(&a.minor, &b.minor)
    } else {
        false
    }
}

/// Sorts `items` stably by the keys given beside them.
pub(crate) fn sort_by_keys<T>(items: Vec<T>, keys: Vec<SortKey>, Ghost(kf): Ghost<spec_fn(T) -> SortKeyView>) -> (r: Vec<T>)
    requires
        items@.len() == keys@.len(),
        forall|i: int| 0 <= i < items@.len() ==> #[trigger] keys@[i]@ == kf(items@[i]),
    ensures
        stable_sorted(items@, r@, kf),
        r@.len() == items@.len(),
{
    let ghost input = items@;
    let mut items = items;
    let mut keys = keys;
    let mut out: Vec<T> = Vec::new();
    let mut out_keys: Vec<SortKey> = Vec::new();
    assert(input.skip(input.len() as int) == Seq::<T>::empty());
    while items.len() > 0
        invariant
            items@.len() == keys@.len(),
            items@.len() <= input.len(),
            items@ == input.take(items@.len() as int),
            forall|i: int| 0 <= i < items@.len() ==> #[trigger] keys@[i]@ == kf(items@[i]),
            out@.len() == out_keys@.len(),
            forall|j: int| 0 <= j < out@.len() ==> #[trigger] out_keys@[j]@ == kf(out@[j]),
            stable_sorted(input.skip(items@.len() as int), out@, kf),
            out@.len() + items@.len() == input.len(),
        decreases items@.len(),
    {
        let ghost m = (items@.len() - 1) as int;
        let x = items.pop().unwrap();
        let kx = keys.pop().unwrap();
        assert(x == input[m]);
        assert(kx@ == kf(x));
        let ghost o = out@;
        let mut p: usize = 0;
        while p < out.len() && !key_le_exec(&kx, &out_keys[p])
            invariant
                p <= out@.len(),
                out@ == o,
                out@.len() == out_keys@.len(),
                forall|j: int| 0 <= j < out@.len() ==> #[trigger] out_keys@[j]@ == kf(out@[j]),
                forall|j: int| 0 <= j < p ==> !key_le(kx@, #[trigger] kf(o[j])),
            decreases out@.len() - p,
        {
            p += 1;
        }
        proof {
            if p < o.len() {
                assert(key_le(kx@, kf(o[p as int])));
            }
        }
        let ghost ok = out_keys@;
        out.insert(p, x);
        out_keys.insert(p, kx);
        proof {
            let n = out@;
            assert(n == o.insert(p as int, x));
            assert(out_keys@ == ok.insert(p as int, kx));
            assert forall|j: int| 0 <= j < out@.len() implies #[trigger] out_keys@[j]@ == kf(out@[j]) by {
                if j < p {
                    assert(out_keys@[j] == ok[j] && n[j] == o[j]);
                } else if j == p {
                } else {
                    assert(out_keys@[j] == ok[j - 1] && n[j] == o[j - 1]);
                }
            }
            // in key order
            assert forall|i: int, j: int| 0 <= i < j < n.len() implies key_le(#[trigger] kf(n[i]), #[trigger] kf(n[j])) by {
                if j < p {
                    assert(n[i] == o[i] && n[j] == o[j]);
                } else if j == p {
                    lemma_key_le_total(kx@, kf(o[i]));
                } else if i < p {
                    assert(n[i] == o[i] && n[j] == o[j - 1]);
                } else if i == p {
                    assert(n[j] == o[j - 1]);
                    if p < j - 1 {
                        assert(key_le(kf(o[p as int]), kf(o[j - 1])));
                        lemma_key_le_transitive(kx@, kf(o[p as int]), kf(o[j - 1]));
                    }
                } else {
                    assert(n[i] == o[i - 1] && n[j] == o[j - 1]);
                }
            }
            // each key's elements
            let rest = input.skip(m + 1);
            assert(input.skip(m) == seq![x] + rest);
            assert(n == o.take(p as int) + (seq![x] + o.skip(p as int)));
            assert(o == o.take(p as int) + o.skip(p as int));
            assert forall|k: SortKeyView| #[trigger] with_key(n, kf, k) == with_key(input.skip(m), kf, k) by {
                let pred = key_is(kf, k);
                Seq::filter_distributes_over_add(o.take(p as int), seq![x] + o.skip(p as int), pred);
                Seq::filter_distributes_over_add(o.take(p as int), o.skip(p as int), pred);
                o.skip(p as int).lemma_filter_prepend(x, pred);
                rest.lemma_filter_prepend(x, pred);
                assert(with_key(o, kf, k) == with_key(rest, kf, k));
                if kf(x) == k {
                    assert forall|i: int| 0 <= i < o.take(p as int).len() implies !pred(#[trigger] o.take(p as int)[i]) by {
                        lemma_key_le_reflexive(kx@);
                        assert(o.take(p as int)[i] == o[i]);
                    }
                    lemma_filter_none(o.take(p as int), pred);
                    assert(o.take(p as int).filter(pred) == Seq::<T>::empty());
                }
            }
        }
    }
    assert(input.skip(0) == input);
    out
}

proof fn lemma_filter_push_last<T>(s: Seq<T>, pred: spec_fn(T) -> bool)
    requires
        s.len() > 0,
    ensures
        s.filter(pred) == if pred(s.last()) {
            s.drop_last().filter(pred).push(s.last())
        } else {
            s.drop_last().filter(pred)
        },
{
    reveal(Seq::filter);
}

proof fn lemma_filter_nonempty_has<T>(s: Seq<T>, pred: spec_fn(T) -> bool)
    requires
        s.filter(pred).len() > 0,
    ensures
        exists|i: int| 0 <= i < s.len() && pred(#[trigger] s[i]),
    decreases s.len(),
{
    reveal(Seq::filter);
    if s.len() == 0 {
    } else if pred(s.last()) {
        assert(pred(s[s.len() - 1]));
    } else {
        lemma_filter_nonempty_has(s.drop_last(), pred);
        let i = choose|i: int| 0 <= i < s.drop_last().len() && pred(#[trigger] s.drop_last()[i]);
        assert(s[i] == s.drop_last()[i]);
    }
}

/// Sorting is deterministic: two stable sorts of one sequence by one key
/// give the same sequence.
pub proof fn lemma_stable_sort_unique<T>(input: Seq<T>, a: Seq<T>, b: Seq<T>, kf: spec_fn(T) -> SortKeyView)
    requires
        stable_sorted(input, a, kf),
        stable_sorted(input, b, kf),
    ensures
        a == b,
{
    lemma_sorted_same_keys_equal(a, b, kf);
}

proof fn lemma_sorted_same_keys_equal<T>(a: Seq<T>, b: Seq<T>, kf: spec_fn(T) -> SortKeyView)
    requires
        sorted_by(a, kf),
        sorted_by(b, kf),
        forall|k: SortKeyView| #[trigger] with_key(a, kf, k) == with_key(b, kf, k),
    ensures
        a == b,
    decreases a.len() + b.len(),
{
    if a.len() == 0 && b.len() == 0 {
        return;
    }
    if a.len() == 0 || (b.len() > 0 && !key_le(kf(b.last()), kf(a.last()))) {
        // b's last key is above every key of a
        let kb = kf(b.last());
        let pred = key_is(kf, kb);
        lemma_filter_push_last(b, pred);
        assert(with_key(b, kf, kb).len() > 0);
        assert(with_key(a, kf, kb) == with_key(b, kf, kb));
        lemma_filter_nonempty_has(a, pred);
        let i = choose|i: int| 0 <= i < a.len() && pred(#[trigger] a[i]);
        if i < a.len() - 1 {
            assert(key_le(kf(a[i]), kf(a[a.len() - 1])));
        }
        lemma_key_le_reflexive(kb);
        assert(false);
    }
    if b.len() == 0 || !key_le(kf(a.last()), kf(b.last())) {
        let ka = kf(a.last());
        let pred = key_is(kf, ka);
        lemma_filter_push_last(a, pred);
        assert(with_key(a, kf, ka).len() > 0);
        assert(with_key(a, kf, ka) == with_key(b, kf, ka));
        lemma_filter_nonempty_has(b, pred);
        let i = choose|i: int| 0 <= i < b.len() && pred(#[trigger] b[i]);
        if i < b.len() - 1 {
            assert(key_le(kf(b[i]), kf(b[b.len() - 1])));
        }
        lemma_key_le_reflexive(ka);
        assert(false);
    }
    lemma_key_le_antisymmetric(kf(a.last()), kf(b.last()));
    let kk = kf(a.last());
    let pk = key_is(kf, kk);
    lemma_filter_push_last(a, pk);
    lemma_filter_push_last(b, pk);
    assert(with_key(a, kf, kk) == with_key(b, kf, kk));
    assert(a.last() == with_key(a, kf, kk).last());
    assert(b.last() == with_key(b, kf, kk).last());
    assert forall|k: SortKeyView| #[trigger] with_key(a.drop_last(), kf, k) == with_key(b.drop_last(), kf, k) by {
        let pred = key_is(kf, k);
        lemma_filter_push_last(a, pred);
        lemma_filter_push_last(b, pred);
        assert(with_key(a, kf, k) == with_key(b, kf, k));
        if k == kk {
            assert(with_key(a.drop_last(), kf, k) == with_key(a, kf, k).drop_last());
            assert(with_key(b.drop_last(), kf, k) == with_key(b, kf, k).drop_last());
        }
    }
    assert(sorted_by(a.drop_last(), kf)) by {
        assert forall|i: int, j: int| 0 <= i < j < a.drop_last().len() implies key_le(
            #[trigger] kf(a.drop_last()[i]),
            #[trigger] kf(a.drop_last()[j]),
        ) by {
            assert(a.drop_last()[i] == a[i] && a.drop_last()[j] == a[j]);
        }
    }
    assert(sorted_by(b.drop_last(), kf)) by {
        assert forall|i: int, j: int| 0 <= i < j < b.drop_last().len() implies key_le(
            #[trigger] kf(b.drop_last()[i]),
            #[trigger] kf(b.drop_last()[j]),
        ) by {
            assert(b.drop_last()[i] == b[i] && b.drop_last()[j] == b[j]);
        }
    }
    lemma_sorted_same_keys_equal(a.drop_last(), b.drop_last(), kf);
    assert(a == a.drop_last().push(a.last()));
    assert(b == b.drop_last().push(b.last()));
}

} // verus!
