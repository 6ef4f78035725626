//! The `lru` crate's least-recently-used cache, keyed by container id and
//! holding the last usage counter read for that container.
//!
//! A cache is modelled as the sequence of its entries, most recently used
//! first, and the capacity it was made with.
use lru::LruCache;
use vstd::prelude::*;

verus! {

#[verifier::external_type_specification]
#[verifier::external_body]
#[verifier::reject_recursive_types(K)]
#[verifier::reject_recursive_types(V)]
#[verifier::reject_recursive_types(S)]
pub struct ExLruCache<K, V, S>(LruCache<K, V, S>);

#[verifier::external_type_specification]
#[verifier::external_body]
pub struct ExLruHasher(lru::DefaultHasher);

/// The entries of a cache, most recently used first: each a key and its value.
pub uninterp spec fn lru_entries(cache: LruCache<String, u64>) -> Seq<(Seq<char>, u64)>;

/// The capacity that a cache was made with: it never holds more entries.
pub uninterp spec fn lru_capacity(cache: LruCache<String, u64>) -> nat;

/// Entry `i` of `s` has key `k`.
pub open spec fn key_at(s: Seq<(Seq<char>, u64)>, k: Seq<char>, i: int) -> bool {
    0 <= i < s.len() && s[i].0 == k
}

/// Some entry of `s` has key `k`.
pub open spec fn has_key(s: Seq<(Seq<char>, u64)>, k: Seq<char>) -> bool {
    exists|i: int| key_at(s, k, i)
}

/// The position of the entry with key `k` (meaningful where `has_key` holds).
pub open spec fn key_position(s: Seq<(Seq<char>, u64)>, k: Seq<char>) -> int {
    choose|i: int| key_at(s, k, i)
}

/// The value held for `k`, if any.
pub open spec fn cached_value(s: Seq<(Seq<char>, u64)>, k: Seq<char>) -> Option<u64> {
    if has_key(s, k) {
        Some(s[key_position(s, k)].1)
    } else {
        None
    }
}

/// No key occurs twice.
pub open spec fn distinct_keys(s: Seq<(Seq<char>, u64)>) -> bool {
    forall|i: int, j: int| 0 <= i < j < s.len() ==> s[i].0 != s[j].0
}

/// What every cache satisfies: distinct keys, and no more entries than its
/// capacity.
pub open spec fn entries_ok(s: Seq<(Seq<char>, u64)>, cap: nat) -> bool {
    distinct_keys(s) && s.len() <= cap
}

/// The entries after a lookup of `k`: a present key moves to the front.
pub open spec fn touched(s: Seq<(Seq<char>, u64)>, k: Seq<char>) -> Seq<(Seq<char>, u64)> {
    if has_key(s, k) {
        seq![s[key_position(s, k)]] + s.remove(key_position(s, k))
    } else {
        s
    }
}

/// The entries after storing `v` under `k`: a present key takes the new value
/// and moves to the front; otherwise, unless the capacity is zero, the new
/// entry goes in front, and a full cache drops its least recently used entry.
pub open spec fn stored(s: Seq<(Seq<char>, u64)>, k: Seq<char>, v: u64, cap: nat) -> Seq<
    (Seq<char>, u64),
> {
    if has_key(s, k) {
        seq![(k, v)] + s.remove(key_position(s, k))
    } else if cap == 0 {
        s
    } else if s.len() >= cap {
        seq![(k, v)] + s.drop_last()
    } else {
        seq![(k, v)] + s
    }
}

/// Calls `lru::LruCache::new`: an empty cache that holds at most `cap`
/// entries. The capacity is bounded here because the map behind the cache is
/// allocated with that capacity up front.
#[verifier::external_body]
pub(crate) fn lru_new(cap: usize) -> (cache: LruCache<String, u64>)
    requires
        cap <= 65536,
    ensures
        lru_entries(cache) == Seq::<(Seq<char>, u64)>::empty(),
        lru_capacity(cache) == cap,
{
    LruCache::new(cap)
}

/// Calls `lru::LruCache::get`: the value held for `k`, if any; a present key
/// becomes the most recently used.
#[verifier::external_body]
pub(crate) fn lru_get(cache: &mut LruCache<String, u64>, k: &str) -> (r: Option<u64>)
    ensures
        r == cached_value(lru_entries(*old(cache)), k@),
        lru_entries(*final(cache)) == touched(lru_entries(*old(cache)), k@),
        lru_capacity(*final(cache)) == lru_capacity(*old(cache)),
        entries_ok(lru_entries(*final(cache)), lru_capacity(*final(cache))),
{
    cache.get(k).copied()
}

/// Calls `lru::LruCache::peek`: the value held for `k`, if any, leaving the
/// order of the entries as it is.
#[verifier::external_body]
pub(crate) fn lru_peek(cache: &LruCache<String, u64>, k: &str) -> (r: Option<u64>)
    ensures
        r == cached_value(lru_entries(*cache), k@),
{
    cache.peek(k).copied()
}

/// Calls `lru::LruCache::put`: stores `v` under `k` and returns the value
/// that `k` held before, if any.
#[verifier::external_body]
pub(crate) fn lru_put(cache: &mut LruCache<String, u64>, k: String, v: u64) -> (r: Option<u64>)
    ensures
        r == cached_value(lru_entries(*old(cache)), k@),
        lru_entries(*final(cache)) == stored(
            lru_entries(*old(cache)),
            k@,
            v,
            lru_capacity(*old(cache)),
        ),
        lru_capacity(*final(cache)) == lru_capacity(*old(cache)),
        entries_ok(lru_entries(*final(cache)), lru_capacity(*final(cache))),
{
    cache.put(k, v)
}

/// In entries with distinct keys, the entry with key `k` is the one at
/// position `i`.
pub proof fn lemma_cached_value_at(s: Seq<(Seq<char>, u64)>, k: Seq<char>, i: int)
    requires
        distinct_keys(s),
        key_at(s, k, i),
    ensures
        key_position(s, k) == i,
        cached_value(s, k) == Some(s[i].1),
{
    assert(has_key(s, k));
    let p = key_position(s, k);
    assert(key_at(s, k, p));
    if p < i {
        assert(s[p].0 != s[i].0);
    } else if i < p {
        assert(s[i].0 != s[p].0);
    }
}

/// A lookup moves an entry but changes no value: every key reads as before,
/// and the entries stay well formed.
pub proof fn lemma_touched_keeps_values(s: Seq<(Seq<char>, u64)>, k: Seq<char>, cap: nat)
    requires
        entries_ok(s, cap),
    ensures
        entries_ok(touched(s, k), cap),
        touched(s, k).len() == s.len(),
        forall|j: Seq<char>| #[trigger] cached_value(touched(s, k), j) == cached_value(s, j),
{
    if has_key(s, k) {
        let p = key_position(s, k);
        assert(key_at(s, k, p));
        let t = touched(s, k);
        assert(t.len() == s.len());
        // `sa` and `sb` are the positions in `s` of the entries at `a` and `b`
        assert forall|a: int, b: int| 0 <= a < b < t.len() implies t[a].0 != t[b].0 by {
            let sa = if a == 0 { p } else if a - 1 < p { a - 1 } else { a };
            let sb = if b == 0 { p } else if b - 1 < p { b - 1 } else { b };
            assert(t[a] == s[sa]);
            assert(t[b] == s[sb]);
            assert(sa != sb);
            if sa < sb {
                assert(s[sa].0 != s[sb].0);
            } else {
                assert(s[sb].0 != s[sa].0);
            }
        }
        assert forall|j: Seq<char>| #[trigger] cached_value(t, j) == cached_value(s, j) by {
            if has_key(s, j) {
                let q = key_position(s, j);
                assert(key_at(s, j, q));
                lemma_cached_value_at(s, j, q);
                let tq = if q == p { 0 } else if q < p { q + 1 } else { q };
                assert(t[tq] == s[q]);
                assert(key_at(t, j, tq));
                lemma_cached_value_at(t, j, tq);
            } else {
                if has_key(t, j) {
                    let q = choose|q: int| key_at(t, j, q);
                    let sq = if q == 0 { p } else if q - 1 < p { q - 1 } else { q };
                    assert(t[q] == s[sq]);
                    assert(key_at(s, j, sq));
                }
            }
        }
    }
}

/// Storing `v` under `k` in a cache of positive capacity: `k` then reads as
/// `v`, the entries stay well formed, and every other key reads as before or
/// has left the cache.
pub proof fn lemma_stored_reads_back(s: Seq<(Seq<char>, u64)>, k: Seq<char>, v: u64, cap: nat)
    requires
        entries_ok(s, cap),
        cap > 0,
    ensures
        cached_value(stored(s, k, v, cap), k) == Some(v),
        entries_ok(stored(s, k, v, cap), cap),
        forall|j: Seq<char>|
            j != k && #[trigger] cached_value(stored(s, k, v, cap), j) is Some ==> cached_value(
                stored(s, k, v, cap),
                j,
            ) == cached_value(s, j),
{
    let t = stored(s, k, v, cap);
    // after its first entry, position `a` of `t` holds entry `a - 1` of `s`
    // before the removed position `p`, and entry `a` from there on
    let p = if has_key(s, k) { key_position(s, k) } else { s.len() as int };
    if has_key(s, k) {
        assert(key_at(s, k, p));
    }
    assert(t[0] == (k, v));
    assert forall|a: int| 1 <= a < t.len() implies #[trigger] t[a] == s[
        if a - 1 < p { a - 1 } else { a }
    ] && (if a - 1 < p { a - 1 } else { a }) != p && 0 <= (if a - 1 < p { a - 1 } else { a }) < s.len() by {
    }
    assert forall|a: int| 1 <= a < t.len() implies #[trigger] t[a].0 != k by {
        let sa = if a - 1 < p { a - 1 } else { a };
        assert(t[a] == s[sa]);
        if has_key(s, k) {
            if sa < p {
                assert(s[sa].0 != s[p].0);
            } else {
                assert(s[p].0 != s[sa].0);
            }
        } else {
            assert(!key_at(s, k, sa));
        }
    }
    assert forall|a: int, b: int| 0 <= a < b < t.len() implies t[a].0 != t[b].0 by {
        if a > 0 {
            let sa = if a - 1 < p { a - 1 } else { a };
            let sb = if b - 1 < p { b - 1 } else { b };
            assert(t[a] == s[sa]);
            assert(t[b] == s[sb]);
            assert(s[sa].0 != s[sb].0);
        }
    }
    assert(key_at(t, k, 0));
    lemma_cached_value_at(t, k, 0);
    assert forall|j: Seq<char>|
        j != k && #[trigger] cached_value(t, j) is Some implies cached_value(t, j) == cached_value(
            s,
            j,
        ) by {
        let q = key_position(t, j);
        assert(key_at(t, j, q));
        lemma_cached_value_at(t, j, q);
        assert(q != 0);
        let sq = if q - 1 < p { q - 1 } else { q };
        assert(t[q] == s[sq]);
        assert(key_at(s, j, sq));
        lemma_cached_value_at(s, j, sq);
    }
}

} // verus!
