//! The response cache kept in memory: records stamped with the time they
//! were stored, read back while they are fresh, and dropped by key prefix.
//! Values are JSON documents, which the cache carries without reading.
use vstd::prelude::*;
use crate::text::{owned, spec_starts_with, starts_with_str, str_eq};

verus! {

broadcast use vstd::string::group_string_axioms;

/// How long a cached response stays fresh; zero disables caching.
#[derive(Debug, Clone, Copy)]
pub struct CachePolicy {
    pub ttl_secs: u64,
}

/// A record stored at `stored_at` is fresh at `now` when at most the policy's
/// time to live has passed (a clock that went back counts as no time).
pub open spec fn spec_is_fresh(stored_at: u64, now: u64, policy: CachePolicy) -> bool {
    (if now >= stored_at { now - stored_at } else { 0 }) <= policy.ttl_secs
}

/// Whether a record stored at `stored_at_unix_secs` is fresh at `now_unix_secs`.
pub fn is_fresh(stored_at_unix_secs: u64, now_unix_secs: u64, policy: CachePolicy) -> (b: bool)
    ensures
        b == spec_is_fresh(stored_at_unix_secs, now_unix_secs, policy),
{
    now_unix_secs.saturating_sub(stored_at_unix_secs) <= policy.ttl_secs
}

/// A record read from disk is used only when it was stored under the key
/// that was asked for (two keys may share a file name).
pub fn disk_record_matches(record_key: &str, key: &str) -> (b: bool)
    ensures
        b == (record_key@ == key@),
{
    str_eq(record_key, key)
}

/// A cached value and when it was stored.
#[derive(Debug)]
pub struct MemoryRecord {
    pub stored_at_unix_secs: u64,
    pub payload: ::serde_json::Value,
}

/// The records kept in memory, by key.
#[derive(Debug)]
pub struct MemoryCache {
    entries: Vec<(String, MemoryRecord)>,
}

/// The records of a list of entries by key; a later entry for a key wins.
pub open spec fn entries_map(es: Seq<(String, MemoryRecord)>) -> Map<Seq<char>, (u64, ::serde_json::Value)>
    decreases es.len(),
{
    if es.len() == 0 {
        Map::empty()
    } else {
        entries_map(es.drop_last()).insert(es.last().0@, (es.last().1.stored_at_unix_secs, es.last().1.payload))
    }
}

impl View for MemoryCache {
    type V = Map<Seq<char>, (u64, ::serde_json::Value)>;

    closed spec fn view(&self) -> Map<Seq<char>, (u64, ::serde_json::Value)> {
        entries_map(self.entries@)
    }
}

/// The cache's records after dropping every key that starts with `prefix`.
pub open spec fn without_prefix(m: Map<Seq<char>, (u64, ::serde_json::Value)>, prefix: Seq<char>) -> Map<Seq<char>, (u64, ::serde_json::Value)> {
    m.restrict(m.dom().filter(|k: Seq<char>| !spec_starts_with(k, prefix)))
}

/// What a lookup gives: the payload of a fresh record under `key`, nothing
/// when caching is off, the key is missing, or the record is stale.
pub open spec fn spec_lookup(m: Map<Seq<char>, (u64, ::serde_json::Value)>, key: Seq<char>, policy: CachePolicy, now: u64) -> Option<::serde_json::Value> {
    if policy.ttl_secs == 0 || !m.dom().contains(key) || !spec_is_fresh(m[key].0, now, policy) {
        None
    } else {
        Some(m[key].1)
    }
}

proof fn lemma_entries_update(es: Seq<(String, MemoryRecord)>, idx: int, e: (String, MemoryRecord))
    requires
        0 <= idx < es.len(),
        es[idx].0@ == e.0@,
        forall|j: int| idx < j < es.len() ==> es[j].0@ != e.0@,
    ensures
        entries_map(es.update(idx, e)) == entries_map(es).insert(e.0@, (e.1.stored_at_unix_secs, e.1.payload)),
    decreases es.len(),
{
    let u = es.update(idx, e);
    if idx == es.len() - 1 {
        assert(u.drop_last() == es.drop_last());
        let m = entries_map(es.drop_last());
        assert(entries_map(u) == m.insert(e.0@, (e.1.stored_at_unix_secs, e.1.payload)));
        assert(m.insert(es.last().0@, (es.last().1.stored_at_unix_secs, es.last().1.payload)).insert(
            e.0@,
            (e.1.stored_at_unix_secs, e.1.payload),
        ) == m.insert(e.0@, (e.1.stored_at_unix_secs, e.1.payload)));
    } else {
        assert(u.drop_last() == es.drop_last().update(idx, e));
        lemma_entries_update(es.drop_last(), idx, e);
        let m = entries_map(es.drop_last());
        let l = es.last();
        assert(l.0@ != e.0@);
        assert(m.insert(e.0@, (e.1.stored_at_unix_secs, e.1.payload)).insert(l.0@, (l.1.stored_at_unix_secs, l.1.payload))
            == m.insert(l.0@, (l.1.stored_at_unix_secs, l.1.payload)).insert(e.0@, (e.1.stored_at_unix_secs, e.1.payload)));
    }
}

proof fn lemma_entries_lookup(es: Seq<(String, MemoryRecord)>, idx: int)
    requires
        0 <= idx < es.len(),
        forall|j: int| idx < j < es.len() ==> es[j].0@ != es[idx].0@,
    ensures
        entries_map(es).dom().contains(es[idx].0@),
        entries_map(es)[es[idx].0@] == (es[idx].1.stored_at_unix_secs, es[idx].1.payload),
    decreases es.len(),
{
    if idx < es.len() - 1 {
        lemma_entries_lookup(es.drop_last(), idx);
    }
}

proof fn lemma_entries_absent(es: Seq<(String, MemoryRecord)>, key: Seq<char>)
    requires
        forall|j: int| 0 <= j < es.len() ==> es[j].0@ != key,
    ensures
        !entries_map(es).dom().contains(key),
    decreases es.len(),
{
    if es.len() > 0 {
        lemma_entries_absent(es.drop_last(), key);
    }
}

/// The position of the last entry for `key` before `i`, if any.
fn last_index_of(es: &Vec<(String, MemoryRecord)>, key: &str) -> (r: Option<usize>)
    ensures
        match r {
            Some(k) => k < es@.len() && es@[k as int].0@ == key@
                && forall|j: int| k < j < es@.len() ==> es@[j].0@ != key@,
            None => forall|j: int| 0 <= j < es@.len() ==> es@[j].0@ != key@,
        },
{
    let mut i = es.len();
    while i > 0
        invariant
            i <= es@.len(),
            forall|j: int| i <= j < es@.len() ==> es@[j].0@ != key@,
        decreases i,
    {
        if str_eq(es[i - 1].0.as_str(), key) {
            return Some(i - 1);
        }
        i -= 1;
    }
    None
}

impl MemoryCache {
    /// An empty cache.
    pub fn new() -> (c: Self)
        ensures
            c@ == Map::<Seq<char>, (u64, ::serde_json::Value)>::empty(),
    {
        MemoryCache { entries: Vec::new() }
    }

    /// The payload of the fresh record under `key` at time `now_unix_secs`.
    pub fn get(&self, key: &str, policy: CachePolicy, now_unix_secs: u64) -> (r: Option<&::serde_json::Value>)
        ensures
            match spec_lookup(self@, key@, policy, now_unix_secs) {
                Some(p) => r matches Some(x) && *x == p,
                None => r is None,
            },
    {
        if policy.ttl_secs == 0 {
            return None;
        }
        match last_index_of(&self.entries, key) {
            None => {
                proof {
                    lemma_entries_absent(self.entries@, key@);
                }
                None
            },
            Some(k) => {
                proof {
                    lemma_entries_lookup(self.entries@, k as int);
                }
                let rec = &self.entries[k].1;
                if is_fresh(rec.stored_at_unix_secs, now_unix_secs, policy) {
                    Some(&rec.payload)
                } else {
                    None
                }
            },
        }
    }

    /// Stores `payload` under `key`, stamped `stored_at_unix_secs`,
    /// replacing any record under that key.
    pub fn set(&mut self, key: &str, stored_at_unix_secs: u64, payload: ::serde_json::Value)
        ensures
            final(self)@ == old(self)@.insert(key@, (stored_at_unix_secs, payload)),
    {
        let rec = MemoryRecord { stored_at_unix_secs, payload };
        match last_index_of(&self.entries, key) {
            Some(k) => {
                let ghost es = self.entries@;
                let e = (owned(key), rec);
                proof {
                    lemma_entries_update(es, k as int, e);
                }
                self.entries.set(k, e);
            },
            None => {
                let ghost es = self.entries@;
                self.entries.push((owned(key), rec));
                assert(self.entries@.drop_last() == es);
            },
        }
    }

    /// Drops every record whose key starts with `prefix`.
    pub fn invalidate_prefix(&mut self, prefix: &str)
        ensures
            final(self)@ == without_prefix(old(self)@, prefix@),
    {
        let ghost all = self.entries@;
        let mut rest: Vec<(String, MemoryRecord)> = Vec::new();
        let mut old_entries: Vec<(String, MemoryRecord)> = Vec::new();
        std::mem::swap(&mut old_entries, &mut self.entries);
        // move the entries out back to front, then keep them front to back
        let mut taken: Vec<(String, MemoryRecord)> = Vec::new();
        while old_entries.len() > 0
            invariant
                old_entries@ + taken@.reverse() == all,
            decreases old_entries.len(),
        {
            let ghost before_rest = old_entries@;
            let ghost before_taken = taken@;
            let e = old_entries.pop().unwrap();
            taken.push(e);
            assert(old_entries@ + taken@.reverse() == all) by {
                assert(taken@.reverse() == seq![e] + before_taken.reverse());
                assert(before_rest == old_entries@.push(e));
            }
        }
        assert(taken@.reverse() == all);
        let ghost rev = taken@;
        let ghost keep = kept_under(prefix@);
        assert(all.take(0) == Seq::<(String, MemoryRecord)>::empty());
        proof {
            reveal(Seq::filter);
        }
        while taken.len() > 0
            invariant
                keep == kept_under(prefix@),
                rev.reverse() == all,
                rev.len() == all.len(),
                taken@.len() <= rev.len(),
                taken@ == rev.take(taken@.len() as int),
                rest@ == all.take(all.len() - taken@.len()).filter(keep),
            decreases taken.len(),
        {
            let ghost k = all.len() - taken@.len();
            let e = taken.pop().unwrap();
            let ghost it = e;
            assert(e == rev[taken@.len() as int]);
            assert(all[k] == rev.reverse()[k]);
            let dropped = starts_with_str(e.0.as_str(), prefix);
            if !dropped {
                rest.push(e);
            }
            proof {
                assert(all.take(k + 1).drop_last() == all.take(k));
                assert(all.take(k + 1).last() == it);
                reveal(Seq::filter);
                assert(all.take(k + 1).filter(keep) == if keep(it) {
                    all.take(k).filter(keep).push(it)
                } else {
                    all.take(k).filter(keep)
                });
                assert(taken@ == rev.take(taken@.len() as int));
            }
        }
        assert(all.take(all.len() as int) == all);
        proof {
            lemma_entries_filter(all, prefix@);
        }
        self.entries = rest;
    }
}

/// Which entries survive dropping `prefix`.
pub open spec fn kept_under(prefix: Seq<char>) -> spec_fn((String, MemoryRecord)) -> bool {
    |e: (String, MemoryRecord)| !spec_starts_with(e.0@, prefix)
}

proof fn lemma_entries_filter(es: Seq<(String, MemoryRecord)>, prefix: Seq<char>)
    ensures
        entries_map(es.filter(kept_under(prefix))) == without_prefix(entries_map(es), prefix),
    decreases es.len(),
{
    let keep = kept_under(prefix);
    reveal(Seq::filter);
    if es.len() == 0 {
        assert(es.filter(keep) == es);
        assert(without_prefix(entries_map(es), prefix) == Map::<Seq<char>, (u64, ::serde_json::Value)>::empty());
    } else {
        lemma_entries_filter(es.drop_last(), prefix);
        let l = es.last();
        let m = entries_map(es.drop_last());
        let full = m.insert(l.0@, (l.1.stored_at_unix_secs, l.1.payload));
        let f = es.drop_last().filter(keep);
        if keep(l) {
            assert(es.filter(keep) == f.push(l));
            assert(f.push(l).drop_last() == f);
            assert(entries_map(f.push(l)) == entries_map(f).insert(l.0@, (l.1.stored_at_unix_secs, l.1.payload)));
            assert(without_prefix(full, prefix) == without_prefix(m, prefix).insert(l.0@, (l.1.stored_at_unix_secs, l.1.payload)));
        } else {
            assert(es.filter(keep) == f);
            assert(without_prefix(full, prefix) == without_prefix(m, prefix));
        }
    }
}

/// Setting a key and then reading it back while fresh gives the value set;
/// other keys are unaffected.
pub proof fn law_cache_set_then_get(c: Map<Seq<char>, (u64, ::serde_json::Value)>, key: Seq<char>, other: Seq<char>, stored_at: u64, payload: ::serde_json::Value, policy: CachePolicy, now: u64)
    requires
        policy.ttl_secs > 0,
        spec_is_fresh(stored_at, now, policy),
        other != key,
    ensures
        spec_lookup(c.insert(key, (stored_at, payload)), key, policy, now) == Some(payload),
        spec_lookup(c.insert(key, (stored_at, payload)), other, policy, now) == spec_lookup(c, other, policy, now),
{
}

/// A record is not read back once its time to live has passed.
pub proof fn law_cache_expires(c: Map<Seq<char>, (u64, ::serde_json::Value)>, key: Seq<char>, policy: CachePolicy, now: u64)
    requires
        c.dom().contains(key),
        now >= c[key].0,
        now - c[key].0 > policy.ttl_secs,
    ensures
        spec_lookup(c, key, policy, now) is None,
{
}

/// After dropping a prefix, no key with that prefix is read back, and every
/// other key reads as before.
pub proof fn law_cache_invalidate_prefix(c: Map<Seq<char>, (u64, ::serde_json::Value)>, prefix: Seq<char>, key: Seq<char>, policy: CachePolicy, now: u64)
    ensures
        spec_starts_with(key, prefix) ==> spec_lookup(without_prefix(c, prefix), key, policy, now) is None,
        !spec_starts_with(key, prefix) ==> spec_lookup(without_prefix(c, prefix), key, policy, now) == spec_lookup(c, key, policy, now),
{
}

} // verus!
