//! LRU response cache whose entries expire after a time-to-live.
//!
//! Used to elide repeated identical search calls within a configurable
//! window. Entries are kept by the `lru` crate's `LruCache`, keyed by the
//! request, each holding the time it was stored and the encoded response.
//! Time is read by the caller and passed in as the span since a fixed
//! origin.
use std::num::NonZeroUsize;

use vstd::prelude::*;

use crate::text::{push_str, string_of};
use crate::time::TimeSpan;

verus! {

/// A cached value: when it was stored (nanoseconds since the caller's time
/// origin) and the encoded response.
pub type Slot = (u128, Vec<u8>);

/// An entry as the contracts see it: key, storage time, value.
pub type EntryView = (Seq<char>, u128, Seq<u8>);

/// The LRU map the cache is built on.
#[verifier::external_type_specification]
#[verifier::external_body]
#[verifier::reject_recursive_types(K)]
#[verifier::reject_recursive_types(V)]
#[verifier::reject_recursive_types(S)]
pub struct ExLruCache<K, V, S>(lru::LruCache<K, V, S>);

/// The hasher an LRU map uses by default.
#[verifier::external_type_specification]
#[verifier::external_body]
pub struct ExLruHasher(lru::DefaultHasher);

/// The entries of an LRU map, most recently used first.
pub uninterp spec fn lru_entries(c: lru::LruCache<String, Slot>) -> Seq<EntryView>;

/// The number of entries an LRU map holds at most.
pub uninterp spec fn lru_capacity(c: lru::LruCache<String, Slot>) -> nat;

/// No key occurs twice.
pub open spec fn keys_unique(es: Seq<EntryView>) -> bool {
    forall|i: int, j: int| 0 <= i < es.len() && 0 <= j < es.len() && i != j ==> es[i].0 != es[j].0
}

/// Whether `key` has an entry.
pub open spec fn has_key(es: Seq<EntryView>, key: Seq<char>) -> bool {
    exists|i: int| 0 <= i < es.len() && es[i].0 == key
}

/// The entry for `key`, if there is one.
pub open spec fn lookup(es: Seq<EntryView>, key: Seq<char>) -> Option<EntryView> {
    if has_key(es, key) {
        Some(es[choose|i: int| 0 <= i < es.len() && es[i].0 == key])
    } else {
        None
    }
}

/// The entries other than the one for `key`, in order.
pub open spec fn without(es: Seq<EntryView>, key: Seq<char>) -> Seq<EntryView> {
    es.filter(|e: EntryView| e.0 != key)
}

/// The entries after storing `e` under its key in a map of `cap` entries:
/// `e` becomes the most recent; a previous entry for the key goes; and
/// when the map was full with no such entry, the least recent one goes.
pub open spec fn entries_after_put(es: Seq<EntryView>, cap: nat, e: EntryView) -> Seq<EntryView> {
    if has_key(es, e.0) {
        seq![e] + without(es, e.0)
    } else if es.len() >= cap {
        seq![e] + es.drop_last()
    } else {
        seq![e] + es
    }
}

/// Whether `op` evicts the entry of `k` from `es` in a map of `cap`
/// entries: a write of another, new key into a full map whose least
/// recently used entry is the one of `k`.
pub open spec fn evicts(es: Seq<EntryView>, cap: nat, op: CacheOp, k: Seq<char>) -> bool {
    &&& op is Put
    &&& op->Put_key != k
    &&& !has_key(es, op->Put_key)
    &&& es.len() >= cap
    &&& es.len() > 0
    &&& es.last().0 == k
}

/// Whether none of `ops`, applied in order from `es`, evicts `k`.
pub open spec fn never_evicts(es: Seq<EntryView>, cap: nat, ttl: nat, ops: Seq<CacheOp>, k: Seq<char>) -> bool
    decreases ops.len(),
{
    ops.len() == 0 || (!evicts(es, cap, ops[0], k) && never_evicts(
        apply_op(es, cap, ttl, ops[0]),
        cap,
        ttl,
        ops.drop_first(),
        k,
    ))
}

/// Whether every read of `k` among `ops` happens no later than `t`.
pub open spec fn reads_by(ops: Seq<CacheOp>, k: Seq<char>, t: nat) -> bool {
    forall|i: int|
        0 <= i < ops.len() && (#[trigger] ops[i]) is Get && ops[i]->Get_key == k ==> ops[i]->Get_now
            <= t
}

/// Whether none of `ops` writes `k` or clears the cache.
pub open spec fn leaves_alone(ops: Seq<CacheOp>, k: Seq<char>) -> bool {
    forall|i: int| 0 <= i < ops.len() ==> !writes(#[trigger] ops[i], k) && !(ops[i] is Clear)
}

/// At most `cap` entries, and no key twice.
pub open spec fn bounded(es: Seq<EntryView>, cap: nat) -> bool {
    keys_unique(es) && es.len() <= cap
}

/// What a read of `key` at time `now` gives back from `es` when entries
/// live `ttl`: the stored value, unless it has outlived its time.
pub open spec fn read_at(es: Seq<EntryView>, key: Seq<char>, now: nat, ttl: nat) -> Option<Seq<u8>> {
    match lookup(es, key) {
        Some(e) => if expired(e.1 as nat, now, ttl) {
            None
        } else {
            Some(e.2)
        },
        None => None,
    }
}

/// The entries after a read of `key` at time `now` when entries live
/// `ttl`: an expired entry is dropped, a live one becomes the most recent.
pub open spec fn entries_after_get(es: Seq<EntryView>, key: Seq<char>, now: nat, ttl: nat) -> Seq<
    EntryView,
> {
    match lookup(es, key) {
        None => es,
        Some(e) => if expired(e.1 as nat, now, ttl) {
            without(es, key)
        } else {
            seq![e] + without(es, key)
        },
    }
}

/// One operation on the cache, as its contracts see it.
pub enum CacheOp {
    /// A read of `key` at time `now`.
    Get { key: Seq<char>, now: nat },
    /// A write of `value` under `key`, stored at `stored`.
    Put { key: Seq<char>, stored: u128, value: Seq<u8> },
    /// Dropping every entry.
    Clear,
}

/// The entries after `op`, in a cache of `cap` entries that each live `ttl`.
pub open spec fn apply_op(es: Seq<EntryView>, cap: nat, ttl: nat, op: CacheOp) -> Seq<EntryView> {
    match op {
        CacheOp::Get { key, now } => entries_after_get(es, key, now, ttl),
        CacheOp::Put { key, stored, value } => entries_after_put(es, cap, (key, stored, value)),
        CacheOp::Clear => Seq::empty(),
    }
}

/// The entries after `ops`, in order.
pub open spec fn apply_ops(es: Seq<EntryView>, cap: nat, ttl: nat, ops: Seq<CacheOp>) -> Seq<
    EntryView,
>
    decreases ops.len(),
{
    if ops.len() == 0 {
        es
    } else {
        apply_ops(apply_op(es, cap, ttl, ops[0]), cap, ttl, ops.drop_first())
    }
}

/// Whether `op` writes `key`.
pub open spec fn writes(op: CacheOp, key: Seq<char>) -> bool {
    op matches CacheOp::Put { key: k, .. } && k == key
}

/// The bytes of an optional value.
pub open spec fn bytes_of(r: Option<Vec<u8>>) -> Option<Seq<u8>> {
    match r {
        Some(v) => Some(v@),
        None => None,
    }
}

/// Creates an LRU map of at most `cap` entries.
///
/// Calls `lru::LruCache::new`. Trusted: the map starts empty with capacity
/// `cap`.
#[verifier::external_body]
fn lru_new(cap: usize) -> (c: lru::LruCache<String, Slot>)
    requires
        cap > 0,
    ensures
        lru_entries(c) == Seq::<EntryView>::empty(),
        lru_capacity(c) == cap,
{
    lru::LruCache::new(NonZeroUsize::new(cap).unwrap())
}

/// The slot stored under `key`, leaving the recency order alone.
///
/// Calls `lru::LruCache::peek`, copying the slot out. Trusted: the result
/// is the entry for `key`.
#[verifier::external_body]
fn lru_peek(c: &lru::LruCache<String, Slot>, key: &str) -> (r: Option<Slot>)
    ensures
        match lookup(lru_entries(*c), key@) {
            Some(e) => r matches Some(s) && s.0 == e.1 && s.1@ == e.2,
            None => r is None,
        },
{
    c.peek(key).cloned()
}

/// The slot stored under `key`, marking it most recently used.
///
/// Calls `lru::LruCache::get`, copying the slot out. Trusted: the result
/// is the entry for `key`, which moves to the front; nothing else changes.
#[verifier::external_body]
fn lru_get(c: &mut lru::LruCache<String, Slot>, key: &str) -> (r: Option<Slot>)
    ensures
        lru_capacity(*final(c)) == lru_capacity(*old(c)),
        match lookup(lru_entries(*old(c)), key@) {
            Some(e) => {
                &&& r matches Some(s) && s.0 == e.1 && s.1@ == e.2
                &&& lru_entries(*final(c)) == seq![e] + without(lru_entries(*old(c)), key@)
            },
            None => r is None && lru_entries(*final(c)) == lru_entries(*old(c)),
        },
{
    c.get(key).cloned()
}

/// Removes the entry for `key`.
///
/// Calls `lru::LruCache::pop`. Trusted: the entry for `key` goes and the
/// others keep their order.
#[verifier::external_body]
fn lru_pop(c: &mut lru::LruCache<String, Slot>, key: &str)
    ensures
        lru_capacity(*final(c)) == lru_capacity(*old(c)),
        lru_entries(*final(c)) == without(lru_entries(*old(c)), key@),
{
    c.pop(key);
}

/// Stores `slot` under `key`.
///
/// Calls `lru::LruCache::put`. Trusted: the entries change as
/// `entries_after_put` says, as the crate's source does.
#[verifier::external_body]
fn lru_put(c: &mut lru::LruCache<String, Slot>, key: String, slot: Slot)
    ensures
        lru_capacity(*final(c)) == lru_capacity(*old(c)),
        lru_entries(*final(c)) == entries_after_put(
            lru_entries(*old(c)),
            lru_capacity(*old(c)),
            (key@, slot.0, slot.1@),
        ),
{
    c.put(key, slot);
}

/// Removes every entry.
///
/// Calls `lru::LruCache::clear`. Trusted: the map is left empty.
#[verifier::external_body]
fn lru_clear(c: &mut lru::LruCache<String, Slot>)
    ensures
        lru_capacity(*final(c)) == lru_capacity(*old(c)),
        lru_entries(*final(c)) == Seq::<EntryView>::empty(),
{
    c.clear();
}

/// The key a search is cached and coalesced under: the request path and
/// the JSON request body, joined by `|`.
pub fn search_key(path: &str, body_json: &str) -> (r: String)
    ensures
        r@ == path@ + "|"@ + body_json@,
{
    let mut k = string_of(path);
    push_str(&mut k, "|");
    push_str(&mut k, body_json);
    k
}

/// Whether an entry stored at `stored` has outlived `ttl` at time `now`
/// (time runs no further back than the entry).
pub open spec fn expired(stored: nat, now: nat, ttl: nat) -> bool {
    now > stored && now - stored > ttl
}

/// LRU cache with a per-entry time-to-live.
pub struct TtlCache {
    inner: lru::LruCache<String, Slot>,
    ttl: TimeSpan,
}

impl TtlCache {
    /// The cached entries, most recently used first.
    pub closed spec fn entries(&self) -> Seq<EntryView> {
        lru_entries(self.inner)
    }

    /// The most entries the cache keeps.
    pub closed spec fn capacity(&self) -> nat {
        lru_capacity(self.inner)
    }

    /// The cache keeps some entries, never more than its capacity, and no
    /// key twice.
    pub open spec fn well_formed(&self) -> bool {
        self.capacity() > 0 && bounded(self.entries(), self.capacity())
    }

    /// How long an entry lives, in nanoseconds.
    pub closed spec fn spec_ttl(&self) -> nat {
        self.ttl@
    }

    /// An empty cache of at most `capacity` entries that each live `ttl`.
    pub fn new(capacity: usize, ttl: TimeSpan) -> (r: TtlCache)
        requires
            capacity > 0,
        ensures
            r.entries() == Seq::<EntryView>::empty(),
            r.capacity() == capacity,
            r.spec_ttl() == ttl@,
            r.well_formed(),
    {
        TtlCache { inner: lru_new(capacity), ttl }
    }

    /// The value cached under `key` at time `now`. An entry older than the
    /// time-to-live is dropped and not returned; a live one becomes the most
    /// recently used.
    pub fn get(&mut self, key: &str, now: TimeSpan) -> (r: Option<Vec<u8>>)
        requires
            old(self).well_formed(),
        ensures
            bytes_of(r) == read_at(old(self).entries(), key@, now@, old(self).spec_ttl()),
            final(self).capacity() == old(self).capacity(),
            final(self).spec_ttl() == old(self).spec_ttl(),
            final(self).well_formed(),
            final(self).entries() == entries_after_get(
                old(self).entries(),
                key@,
                now@,
                old(self).spec_ttl(),
            ),
    {
        proof {
            lemma_operations_keep_bounds(self.entries(), self.capacity(), (key@, 0, Seq::empty()), key@);
        }
        let now_ns = now.as_nanos();
        match lru_peek(&self.inner, key) {
            Some(slot) => {
                if now_ns > slot.0 && now_ns - slot.0 > self.ttl.as_nanos() {
                    lru_pop(&mut self.inner, key);
                    None
                } else {
                    match lru_get(&mut self.inner, key) {
                        Some(s) => Some(s.1),
                        None => None,
                    }
                }
            },
            None => None,
        }
    }

    /// Caches `value` under `key` as stored at time `now`.
    pub fn put(&mut self, key: String, value: Vec<u8>, now: TimeSpan)
        requires
            old(self).well_formed(),
        ensures
            final(self).capacity() == old(self).capacity(),
            final(self).spec_ttl() == old(self).spec_ttl(),
            final(self).entries() == entries_after_put(
                old(self).entries(),
                old(self).capacity(),
                (key@, now@ as u128, value@),
            ),
            final(self).well_formed(),
    {
        proof {
            lemma_operations_keep_bounds(
                self.entries(),
                self.capacity(),
                (key@, now@ as u128, value@),
                key@,
            );
        }
        let stamp = now.as_nanos();
        lru_put(&mut self.inner, key, (stamp, value));
    }

    /// Drops every entry, e.g. when an event such as a model swap on the
    /// server invalidates everything.
    pub fn clear(&mut self)
        requires
            old(self).well_formed(),
        ensures
            final(self).capacity() == old(self).capacity(),
            final(self).spec_ttl() == old(self).spec_ttl(),
            final(self).entries() == Seq::<EntryView>::empty(),
            final(self).well_formed(),
    {
        lru_clear(&mut self.inner);
    }
}

/// A value just stored is found under its key, as the most recent entry.
pub proof fn lemma_put_then_lookup(es: Seq<EntryView>, cap: nat, e: EntryView)
    requires
        cap > 0,
    ensures
        lookup(entries_after_put(es, cap, e), e.0) == Some(e),
{
    broadcast use vstd::seq_lib::group_filter_ensures;

    let after = entries_after_put(es, cap, e);
    assert(after[0] == e);
    assert(has_key(after, e.0));
    let i = choose|i: int| 0 <= i < after.len() && after[i].0 == e.0;
    if i != 0 {
        if has_key(es, e.0) {
            let rest = without(es, e.0);
            assert(after[i] == rest[i - 1]);
            assert(after[i].0 != e.0);
            assert(false);
        } else if es.len() >= cap {
            let d = es.drop_last();
            assert(after[i] == d[i - 1]);
            assert(d[i - 1] == es[i - 1]);
            assert(es[i - 1].0 == e.0);
            assert(has_key(es, e.0));
            assert(false);
        } else {
            assert(after[i] == es[i - 1]);
            assert(false);
        }
    }
}

/// After `clear`, a read finds nothing.
pub proof fn lemma_cleared_read(key: Seq<char>, now: nat, ttl: nat)
    ensures
        read_at(Seq::<EntryView>::empty(), key, now, ttl) is None,
{
}

/// A read of a key just written gives back the written value while it
/// has not outlived the time-to-live, and nothing once it has.
pub proof fn lemma_read_after_write(
    es: Seq<EntryView>,
    cap: nat,
    key: Seq<char>,
    value: Seq<u8>,
    stored: u128,
    now: nat,
    ttl: nat,
)
    requires
        cap > 0,
    ensures
        read_at(entries_after_put(es, cap, (key, stored, value)), key, now, ttl) == if expired(
            stored as nat,
            now,
            ttl,
        ) {
            None
        } else {
            Some(value)
        },
{
    lemma_put_then_lookup(es, cap, (key, stored, value));
}

/// What `without` keeps: entries of `es` under other keys, never more of
/// them, fewer when `key` had an entry, and still no key twice.
proof fn lemma_without(es: Seq<EntryView>, key: Seq<char>)
    ensures
        forall|i: int|
            0 <= i < without(es, key).len() ==> (#[trigger] without(es, key)[i]).0 != key
                && es.contains(without(es, key)[i]),
        without(es, key).len() <= es.len(),
        has_key(es, key) ==> without(es, key).len() < es.len(),
        keys_unique(es) ==> keys_unique(without(es, key)),
    decreases es.len(),
{
    reveal(Seq::filter);
    if es.len() > 0 {
        let d = es.drop_last();
        let last = es.last();
        lemma_without(d, key);
        let wd = without(d, key);
        let w = without(es, key);
        assert(w == if last.0 != key {
            wd.push(last)
        } else {
            wd
        });
        assert forall|i: int| 0 <= i < w.len() implies (#[trigger] w[i]).0 != key && es.contains(
            w[i],
        ) by {
            if i < wd.len() {
                assert(w[i] == wd[i]);
                assert(d.contains(wd[i]));
                let j = choose|j: int| 0 <= j < d.len() && d[j] == wd[i];
                assert(es[j] == d[j]);
            } else {
                assert(w[i] == last);
                assert(es[es.len() - 1] == last);
            }
        }
        if has_key(es, key) {
            let k = choose|k: int| 0 <= k < es.len() && es[k].0 == key;
            if last.0 != key {
                assert(k < d.len());
                assert(d[k] == es[k]);
                assert(has_key(d, key));
            }
        }
        if keys_unique(es) {
            assert(keys_unique(d)) by {
                assert forall|i: int, j: int|
                    0 <= i < d.len() && 0 <= j < d.len() && i != j implies d[i].0 != d[j].0 by {
                    assert(d[i] == es[i] && d[j] == es[j]);
                }
            }
            if last.0 != key {
                assert forall|i: int, j: int|
                    0 <= i < w.len() && 0 <= j < w.len() && i != j implies w[i].0 != w[j].0 by {
                    if i < wd.len() && j < wd.len() {
                        assert(w[i] == wd[i] && w[j] == wd[j]);
                    } else {
                        let m = if i < wd.len() {
                            i
                        } else {
                            j
                        };
                        assert(m < wd.len());
                        assert(w[m] == wd[m]);
                        assert(d.contains(wd[m]));
                        let jj = choose|jj: int| 0 <= jj < d.len() && d[jj] == wd[m];
                        assert(es[jj] == d[jj]);
                        assert(es[jj].0 != es[es.len() - 1].0);
                    }
                }
            }
        }
    }
}

/// Moving the entry `e` of key `e.0` to the front keeps the map bounded.
proof fn lemma_front_bounded(es: Seq<EntryView>, cap: nat, e: EntryView)
    requires
        bounded(es, cap),
        has_key(es, e.0),
    ensures
        bounded(seq![e] + without(es, e.0), cap),
{
    lemma_without(es, e.0);
    let w = without(es, e.0);
    let after = seq![e] + w;
    assert forall|i: int, j: int|
        0 <= i < after.len() && 0 <= j < after.len() && i != j implies after[i].0 != after[j].0 by {
        if i > 0 && j > 0 {
            assert(after[i] == w[i - 1] && after[j] == w[j - 1]);
        } else if i == 0 {
            assert(after[j] == w[j - 1]);
        } else {
            assert(after[i] == w[i - 1]);
        }
    }
}

/// Every change an LRU map goes through keeps it bounded: storing an
/// entry (which may evict the least recently used one), moving an entry
/// to the front, and removing one.
pub proof fn lemma_operations_keep_bounds(es: Seq<EntryView>, cap: nat, e: EntryView, key: Seq<char>)
    requires
        bounded(es, cap),
        cap > 0,
    ensures
        bounded(entries_after_put(es, cap, e), cap),
        lookup(es, key) matches Some(f) ==> bounded(seq![f] + without(es, key), cap),
        bounded(without(es, key), cap),
{
    lemma_without(es, key);
    if let Some(f) = lookup(es, key) {
        lemma_front_bounded(es, cap, f);
    }
    if has_key(es, e.0) {
        lemma_front_bounded(es, cap, e);
    } else {
        let rest = if es.len() >= cap {
            es.drop_last()
        } else {
            es
        };
        let after = seq![e] + rest;
        assert(entries_after_put(es, cap, e) == after);
        assert forall|i: int, j: int|
            0 <= i < after.len() && 0 <= j < after.len() && i != j implies after[i].0
            != after[j].0 by {
            if i > 0 && j > 0 {
                assert(after[i] == es[i - 1] && after[j] == es[j - 1]);
            } else if i == 0 {
                assert(after[j] == es[j - 1]);
            } else {
                assert(after[i] == es[i - 1]);
            }
        }
    }
}

/// With no key twice, the entry at `i` is the one `lookup` finds.
proof fn lemma_lookup_at(es: Seq<EntryView>, k: Seq<char>, i: int)
    requires
        keys_unique(es),
        0 <= i < es.len(),
        es[i].0 == k,
    ensures
        lookup(es, k) == Some(es[i]),
{
    assert(has_key(es, k));
    let j = choose|j: int| 0 <= j < es.len() && es[j].0 == k;
    assert(j == i);
}

/// An entry `lookup` finds is an entry of `es` under that key.
proof fn lemma_lookup_found(es: Seq<EntryView>, k: Seq<char>)
    ensures
        lookup(es, k) matches Some(e) ==> e.0 == k && exists|i: int|
            0 <= i < es.len() && es[i] == e,
{
    if has_key(es, k) {
        let j = choose|i: int| 0 <= i < es.len() && es[i].0 == k;
        assert(0 <= j < es.len() && es[j].0 == k);
    }
}

/// Every operation keeps the cache bounded.
proof fn lemma_op_keeps_bounds(es: Seq<EntryView>, cap: nat, ttl: nat, op: CacheOp)
    requires
        bounded(es, cap),
        cap > 0,
    ensures
        bounded(apply_op(es, cap, ttl, op), cap),
{
    match op {
        CacheOp::Get { key, now } => {
            lemma_operations_keep_bounds(es, cap, (key, 0, Seq::empty()), key);
        },
        CacheOp::Put { key, stored, value } => {
            lemma_operations_keep_bounds(es, cap, (key, stored, value), key);
        },
        CacheOp::Clear => {},
    }
}

/// An entry of `es` under a key other than `key` is in `without(es, key)`,
/// at some index.
proof fn lemma_kept_by_without(es: Seq<EntryView>, key: Seq<char>, i: int)
    requires
        0 <= i < es.len(),
        es[i].0 != key,
    ensures
        exists|j: int| 0 <= j < without(es, key).len() && without(es, key)[j] == es[i],
{
    broadcast use vstd::seq_lib::group_filter_ensures;

    assert(without(es, key).contains(es[i]));
}

/// An operation that neither writes `k` nor clears the cache either leaves
/// the entry of `k` as it was or drops it.
proof fn lemma_step(es: Seq<EntryView>, cap: nat, ttl: nat, op: CacheOp, k: Seq<char>, e: EntryView)
    requires
        bounded(es, cap),
        cap > 0,
        lookup(es, k) == Some(e),
        !writes(op, k),
        !(op is Clear),
    ensures
        lookup(apply_op(es, cap, ttl, op), k) == Some(e) || !has_key(apply_op(es, cap, ttl, op), k),
        !has_key(apply_op(es, cap, ttl, op), k) ==> evicts(es, cap, op, k) || (op is Get
            && op->Get_key == k && expired(e.1 as nat, op->Get_now, ttl)),
{
    let after = apply_op(es, cap, ttl, op);
    lemma_op_keeps_bounds(es, cap, ttl, op);
    lemma_lookup_found(es, k);
    let i = choose|i: int| 0 <= i < es.len() && es[i] == e;
    match op {
        CacheOp::Get { key, now } => {
            lemma_lookup_found(es, key);
            lemma_without(es, key);
            let w = without(es, key);
            if let Some(f) = lookup(es, key) {
                if key == k {
                    if expired(f.1 as nat, now, ttl) {
                        assert forall|m: int| 0 <= m < after.len() implies after[m].0 != k by {
                            assert(after[m] == w[m]);
                        }
                    } else {
                        assert(after[0] == e);
                        lemma_lookup_at(after, k, 0);
                    }
                } else {
                    lemma_kept_by_without(es, key, i);
                    let j = choose|j: int| 0 <= j < w.len() && w[j] == es[i];
                    if expired(f.1 as nat, now, ttl) {
                        lemma_lookup_at(after, k, j);
                    } else {
                        assert(after[j + 1] == e);
                        lemma_lookup_at(after, k, j + 1);
                    }
                }
            }
        },
        CacheOp::Put { key, stored, value } => {
            let ep: EntryView = (key, stored, value);
            if has_key(es, key) {
                lemma_kept_by_without(es, key, i);
                let w = without(es, key);
                let j = choose|j: int| 0 <= j < w.len() && w[j] == es[i];
                assert(after == seq![ep] + w);
                assert(after[j + 1] == e);
                lemma_lookup_at(after, k, j + 1);
            } else if es.len() >= cap {
                let d = es.drop_last();
                assert(after == seq![ep] + d);
                if i < es.len() - 1 {
                    assert(after[i + 1] == e);
                    lemma_lookup_at(after, k, i + 1);
                } else {
                    assert forall|m: int| 0 <= m < after.len() implies after[m].0 != k by {
                        if m > 0 {
                            assert(after[m] == es[m - 1]);
                            assert(es[m - 1].0 != es[i].0);
                        }
                    }
                }
            } else {
                assert(after == seq![ep] + es);
                assert(after[i + 1] == e);
                lemma_lookup_at(after, k, i + 1);
            }
        },
        CacheOp::Clear => {},
    }
}

/// An operation that does not write `k` cannot bring back an entry for it.
proof fn lemma_gone_step(es: Seq<EntryView>, cap: nat, ttl: nat, op: CacheOp, k: Seq<char>)
    requires
        cap > 0,
        !has_key(es, k),
        !writes(op, k),
    ensures
        !has_key(apply_op(es, cap, ttl, op), k),
{
    let after = apply_op(es, cap, ttl, op);
    match op {
        CacheOp::Get { key, now } => {
            lemma_lookup_found(es, key);
            lemma_without(es, key);
            let w = without(es, key);
            assert forall|m: int| 0 <= m < after.len() implies after[m].0 != k by {
                if lookup(es, key) is Some {
                    let f = lookup(es, key)->0;
                    let in_w = if expired(f.1 as nat, now, ttl) {
                        m
                    } else {
                        m - 1
                    };
                    if in_w >= 0 {
                        assert(after[m] == w[in_w]);
                        assert(es.contains(w[in_w]));
                    } else {
                        assert(after[m] == f);
                    }
                } else {
                    assert(after[m] == es[m]);
                }
            }
        },
        CacheOp::Put { key, stored, value } => {
            assert(key != k);
            let ep: EntryView = (key, stored, value);
            lemma_without(es, key);
            let w = without(es, key);
            if has_key(es, key) {
                assert(after == seq![ep] + w);
                assert forall|m: int| 0 <= m < after.len() implies after[m].0 != k by {
                    if m > 0 {
                        assert(after[m] == w[m - 1]);
                        assert(es.contains(w[m - 1]));
                    }
                }
            } else if es.len() >= cap {
                let d = es.drop_last();
                assert(after == seq![ep] + d);
                assert forall|m: int| 0 <= m < after.len() implies after[m].0 != k by {
                    if m > 0 {
                        assert(after[m] == d[m - 1]);
                        assert(d[m - 1] == es[m - 1]);
                    }
                }
            } else {
                assert(after == seq![ep] + es);
                assert forall|m: int| 0 <= m < after.len() implies after[m].0 != k by {
                    if m > 0 {
                        assert(after[m] == es[m - 1]);
                    }
                }
            }
        },
        CacheOp::Clear => {},
    }
}

/// Operations that do not write `k` leave it absent.
proof fn lemma_gone_stays_gone(es: Seq<EntryView>, cap: nat, ttl: nat, ops: Seq<CacheOp>, k: Seq<char>)
    requires
        cap > 0,
        !has_key(es, k),
        forall|i: int| 0 <= i < ops.len() ==> !writes(#[trigger] ops[i], k),
    ensures
        !has_key(apply_ops(es, cap, ttl, ops), k),
    decreases ops.len(),
{
    if ops.len() > 0 {
        lemma_gone_step(es, cap, ttl, ops[0], k);
        let rest = ops.drop_first();
        assert forall|i: int| 0 <= i < rest.len() implies !writes(#[trigger] rest[i], k) by {
            assert(rest[i] == ops[i + 1]);
        }
        lemma_gone_stays_gone(apply_op(es, cap, ttl, ops[0]), cap, ttl, rest, k);
    }
}

/// Through operations that neither write `k` nor clear the cache, the
/// entry of `k` either stays as it was or is gone.
proof fn lemma_kept_or_gone(
    es: Seq<EntryView>,
    cap: nat,
    ttl: nat,
    ops: Seq<CacheOp>,
    k: Seq<char>,
    e: EntryView,
)
    requires
        bounded(es, cap),
        cap > 0,
        lookup(es, k) == Some(e),
        leaves_alone(ops, k),
    ensures
        lookup(apply_ops(es, cap, ttl, ops), k) == Some(e) || !has_key(apply_ops(es, cap, ttl, ops), k),
    decreases ops.len(),
{
    if ops.len() > 0 {
        let after = apply_op(es, cap, ttl, ops[0]);
        let rest = ops.drop_first();
        assert forall|i: int| 0 <= i < rest.len() implies !writes(#[trigger] rest[i], k) && !(
        rest[i] is Clear) by {
            assert(rest[i] == ops[i + 1]);
        }
        assert(!writes(ops[0], k) && !(ops[0] is Clear));
        lemma_step(es, cap, ttl, ops[0], k, e);
        lemma_op_keeps_bounds(es, cap, ttl, ops[0]);
        if !has_key(after, k) {
            lemma_gone_stays_gone(after, cap, ttl, rest, k);
        } else {
            lemma_kept_or_gone(after, cap, ttl, rest, k, e);
        }
    }
}

/// Through operations that neither write `k`, clear the cache nor evict
/// `k`, and that read `k` only while its entry is live, the entry of `k`
/// stays as it was.
proof fn lemma_entry_kept(
    es: Seq<EntryView>,
    cap: nat,
    ttl: nat,
    ops: Seq<CacheOp>,
    k: Seq<char>,
    e: EntryView,
    t: nat,
)
    requires
        bounded(es, cap),
        cap > 0,
        lookup(es, k) == Some(e),
        leaves_alone(ops, k),
        never_evicts(es, cap, ttl, ops, k),
        reads_by(ops, k, t),
        !expired(e.1 as nat, t, ttl),
    ensures
        lookup(apply_ops(es, cap, ttl, ops), k) == Some(e),
    decreases ops.len(),
{
    if ops.len() > 0 {
        let op = ops[0];
        let after = apply_op(es, cap, ttl, op);
        let rest = ops.drop_first();
        assert forall|i: int| 0 <= i < rest.len() implies !writes(#[trigger] rest[i], k) && !(
        rest[i] is Clear) by {
            assert(rest[i] == ops[i + 1]);
        }
        assert forall|i: int|
            0 <= i < rest.len() && (#[trigger] rest[i]) is Get && rest[i]->Get_key == k implies rest[i]->Get_now
            <= t by {
            assert(rest[i] == ops[i + 1]);
        }
        assert(!writes(op, k) && !(op is Clear));
        lemma_step(es, cap, ttl, op, k, e);
        lemma_op_keeps_bounds(es, cap, ttl, op);
        if op is Get && op->Get_key == k {
            assert(op->Get_now <= t);
        }
        lemma_entry_kept(after, cap, ttl, rest, k, e, t);
    }
}

/// A value written under `k` at time `stored` reads back at time `now`
/// after any later operations that neither write `k`, clear the cache nor
/// evict `k`, reading `k` only at times up to `now`: as the value while it
/// has not outlived the time-to-live, and as nothing once it has.
pub proof fn lemma_read_after_write_later(
    es: Seq<EntryView>,
    cap: nat,
    ttl: nat,
    k: Seq<char>,
    value: Seq<u8>,
    stored: u128,
    ops: Seq<CacheOp>,
    now: nat,
)
    requires
        bounded(es, cap),
        cap > 0,
        leaves_alone(ops, k),
        never_evicts(entries_after_put(es, cap, (k, stored, value)), cap, ttl, ops, k),
        reads_by(ops, k, now),
    ensures
        read_at(
            apply_ops(entries_after_put(es, cap, (k, stored, value)), cap, ttl, ops),
            k,
            now,
            ttl,
        ) == if expired(stored as nat, now, ttl) {
            None
        } else {
            Some(value)
        },
{
    let e: EntryView = (k, stored, value);
    let start = entries_after_put(es, cap, e);
    lemma_operations_keep_bounds(es, cap, e, k);
    lemma_put_then_lookup(es, cap, e);
    if expired(stored as nat, now, ttl) {
        lemma_kept_or_gone(start, cap, ttl, ops, k, e);
    } else {
        lemma_entry_kept(start, cap, ttl, ops, k, e, now);
    }
}

/// A read that finds the entry of `k` expired gives nothing and drops it,
/// so every later read of `k` gives nothing too until `k` is written again.
pub proof fn lemma_expired_read_drops(
    es: Seq<EntryView>,
    cap: nat,
    ttl: nat,
    k: Seq<char>,
    now: nat,
    ops: Seq<CacheOp>,
    later: nat,
)
    requires
        cap > 0,
        lookup(es, k) matches Some(e) && expired(e.1 as nat, now, ttl),
        forall|i: int| 0 <= i < ops.len() ==> !writes(#[trigger] ops[i], k),
    ensures
        read_at(es, k, now, ttl) is None,
        !has_key(entries_after_get(es, k, now, ttl), k),
        read_at(apply_ops(entries_after_get(es, k, now, ttl), cap, ttl, ops), k, later, ttl) is None,
{
    lemma_without(es, k);
    let w = without(es, k);
    assert forall|m: int| 0 <= m < w.len() implies w[m].0 != k by {}
    lemma_gone_stays_gone(w, cap, ttl, ops, k);
}

} // verus!
