//! The steps of a search through the response cache and single-flight
//! coalescing.
//!
//! A search first asks [`search_begin`] what to do: answer from the cache,
//! wait on an identical search already in flight, lead a new flight, or
//! simply send the request. Whoever sent the request then reports its
//! outcome to [`search_end`], which ends the flight, hands back the
//! waiters' handle and caches a successful response.
use vstd::prelude::*;

use crate::cache::{
    apply_ops, entries_after_get, entries_after_put, expired, lemma_read_after_write_later,
    leaves_alone, never_evicts, read_at, reads_by, CacheOp, EntryView, TtlCache,
};
use crate::config::ClientConfig;
use crate::singleflight::{lemma_followers_wait_on_leader, FlightTable, Role};
use crate::text::string_of;
use crate::time::TimeSpan;

verus! {

/// What a search does first.
pub enum SearchAction<H> {
    /// The cache answers with these response bytes; no request is sent.
    Hit(Vec<u8>),
    /// An identical search is in flight: wait for its result on this handle.
    Follow(H),
    /// Lead a new flight: send the request, then end the flight.
    Lead,
    /// No coalescing: send the request.
    Fetch,
}

/// The kind of a [`SearchAction`].
#[derive(PartialEq, Eq, Structural)]
pub enum SearchPlan {
    /// Answered from the cache.
    Answer,
    /// Waits on the flight in progress.
    Follow,
    /// Leads a new flight.
    Lead,
    /// Sends the request without coalescing.
    Fetch,
}

/// The kind of `a`.
pub open spec fn plan_of<H>(a: SearchAction<H>) -> SearchPlan {
    match a {
        SearchAction::Hit(_) => SearchPlan::Answer,
        SearchAction::Follow(_) => SearchPlan::Follow,
        SearchAction::Lead => SearchPlan::Lead,
        SearchAction::Fetch => SearchPlan::Fetch,
    }
}

/// The keys in flight, when there is a flight table.
pub open spec fn flight_keys<H>(flights: Option<FlightTable<H>>) -> Option<Seq<Seq<char>>> {
    match flights {
        Some(t) => Some(t.keys()),
        None => None,
    }
}

/// What a search for `key` does when the cache gives back `hit` and the
/// keys `keys` are in flight.
pub open spec fn plan(hit: Option<Seq<u8>>, keys: Option<Seq<Seq<char>>>, key: Seq<char>) -> SearchPlan {
    if hit is Some {
        SearchPlan::Answer
    } else {
        match keys {
            None => SearchPlan::Fetch,
            Some(ks) => if ks.contains(key) {
                SearchPlan::Follow
            } else {
                SearchPlan::Lead
            },
        }
    }
}

/// The keys in flight after that search begins.
pub open spec fn keys_after_begin(hit: Option<Seq<u8>>, keys: Option<Seq<Seq<char>>>, key: Seq<char>) -> Option<
    Seq<Seq<char>>,
> {
    if plan(hit, keys, key) == SearchPlan::Lead {
        Some(keys->0.push(key))
    } else {
        keys
    }
}

/// What the cache gives back for `key` at time `now`, if there is a cache.
pub open spec fn cache_read(cache: Option<TtlCache>, key: Seq<char>, now: nat) -> Option<Seq<u8>> {
    match cache {
        Some(c) => read_at(c.entries(), key, now, c.spec_ttl()),
        None => None,
    }
}

/// The cache, when there is one, is well formed.
pub open spec fn cache_ok(cache: Option<TtlCache>) -> bool {
    cache matches Some(c) ==> c.well_formed()
}

/// The flight table, when there is one, is well formed.
pub open spec fn flights_ok<H>(flights: Option<FlightTable<H>>) -> bool {
    flights matches Some(t) ==> t.well_formed()
}

/// `after` is `before` read at `key` and `now`, capacity and lifetime kept.
pub open spec fn cache_after_read(before: Option<TtlCache>, after: Option<TtlCache>, key: Seq<char>, now: nat) -> bool {
    match before {
        Some(c) => after matches Some(d) && d.entries() == entries_after_get(
            c.entries(),
            key,
            now,
            c.spec_ttl(),
        ) && d.capacity() == c.capacity() && d.spec_ttl() == c.spec_ttl(),
        None => after is None,
    }
}

/// Decides how a search for `key` starting at time `now` goes on; `handle`
/// is what followers will wait on should this search lead.
///
/// A live cached response answers it, with the flights untouched. On a
/// miss, a search identical to one in flight follows that flight; one with
/// no flight in progress leads a new flight under `handle`; and without a
/// flight table the search is simply sent.
pub fn search_begin<H: Clone>(
    cache: &mut Option<TtlCache>,
    flights: &mut Option<FlightTable<H>>,
    key: &str,
    now: TimeSpan,
    handle: H,
) -> (a: SearchAction<H>)
    requires
        cache_ok(*old(cache)),
        flights_ok(*old(flights)),
    ensures
        cache_ok(*final(cache)),
        flights_ok(*final(flights)),
        cache_after_read(*old(cache), *final(cache), key@, now@),
        plan_of(a) == plan(cache_read(*old(cache), key@, now@), flight_keys(*old(flights)), key@),
        flight_keys(*final(flights)) == keys_after_begin(
            cache_read(*old(cache), key@, now@),
            flight_keys(*old(flights)),
            key@,
        ),
        match cache_read(*old(cache), key@, now@) {
            Some(v) => {
                &&& a matches SearchAction::Hit(b) && b@ == v
                &&& *final(flights) == *old(flights)
            },
            None => match *old(flights) {
                None => a is Fetch && *final(flights) is None,
                Some(t) => if t.keys().contains(key@) {
                    &&& a matches SearchAction::Follow(h) && exists|i: int|
                        0 <= i < t.keys().len() && t.keys()[i] == key@ && cloned(t.handles()[i], h)
                    &&& *final(flights) == *old(flights)
                } else {
                    &&& a is Lead
                    &&& *final(flights) matches Some(u) && u.keys() == t.keys().push(key@)
                        && u.handles() == t.handles().push(handle)
                },
            },
        },
{
    let mut taken: Option<TtlCache> = None;
    std::mem::swap(cache, &mut taken);
    let hit = match taken {
        Some(mut c) => {
            let r = c.get(key, now);
            *cache = Some(c);
            r
        },
        None => None,
    };
    if let Some(bytes) = hit {
        return SearchAction::Hit(bytes);
    }
    let mut table: Option<FlightTable<H>> = None;
    std::mem::swap(flights, &mut table);
    match table {
        None => SearchAction::Fetch,
        Some(mut t) => {
            let joined = match t.join(key) {
                Role::Follower(h) => Some(h.clone()),
                Role::Leader => None,
            };
            match joined {
                Some(h) => {
                    *flights = Some(t);
                    SearchAction::Follow(h)
                },
                None => {
                    t.start(string_of(key), handle);
                    *flights = Some(t);
                    SearchAction::Lead
                },
            }
        },
    }
}

/// Records how the search for `key` ended at time `now`: `led` when it led
/// a flight, and the response bytes when it succeeded.
///
/// A led flight ends and its handle comes back so the result can reach the
/// waiters; later searches for `key` lead a new flight. A successful
/// response is cached under `key` as stored at `now`; a failure leaves the
/// cache alone.
pub fn search_end<H>(
    cache: &mut Option<TtlCache>,
    flights: &mut Option<FlightTable<H>>,
    key: String,
    led: bool,
    result: Option<Vec<u8>>,
    now: TimeSpan,
) -> (waiters: Option<H>)
    requires
        cache_ok(*old(cache)),
        flights_ok(*old(flights)),
    ensures
        cache_ok(*final(cache)),
        flights_ok(*final(flights)),
        if led {
            match *old(flights) {
                Some(t) => *final(flights) matches Some(u) && match waiters {
                    Some(h) => exists|i: int|
                        0 <= i < t.keys().len() && t.keys()[i] == key@ && t.handles()[i] == h
                            && u.keys() == t.keys().remove(i) && u.handles() == t.handles().remove(i),
                    None => !t.keys().contains(key@) && u.keys() == t.keys() && u.handles()
                        == t.handles(),
                },
                None => waiters is None && *final(flights) is None,
            }
        } else {
            waiters is None && *final(flights) == *old(flights)
        },
        match result {
            Some(b) => match *old(cache) {
                Some(c) => *final(cache) matches Some(d) && d.entries() == entries_after_put(
                    c.entries(),
                    c.capacity(),
                    (key@, now@ as u128, b@),
                ) && d.capacity() == c.capacity() && d.spec_ttl() == c.spec_ttl(),
                None => *final(cache) is None,
            },
            None => *final(cache) == *old(cache),
        },
{
    let mut table: Option<FlightTable<H>> = None;
    std::mem::swap(flights, &mut table);
    let waiters = match table {
        Some(mut t) => {
            let w = if led {
                t.finish(key.as_str())
            } else {
                None
            };
            *flights = Some(t);
            w
        },
        None => None,
    };
    if let Some(b) = result {
        let mut taken: Option<TtlCache> = None;
        std::mem::swap(cache, &mut taken);
        if let Some(mut c) = taken {
            c.put(key, b, now);
            *cache = Some(c);
        }
    }
    waiters
}

/// The keys in flight after `n` searches for `key` begin, each missing the
/// cache and none ending in between, as `search_begin` leaves them, and
/// how many of those searches led.
pub open spec fn begins(keys: Option<Seq<Seq<char>>>, key: Seq<char>, n: nat) -> (nat, Option<
    Seq<Seq<char>>,
>)
    decreases n,
{
    if n == 0 {
        (0, keys)
    } else {
        let (led, ks) = begins(keys, key, (n - 1) as nat);
        let more = if plan(None, ks, key) == SearchPlan::Lead {
            1nat
        } else {
            0nat
        };
        (led + more, keys_after_begin(None, ks, key))
    }
}

/// Identical searches that overlap make one round trip: of any number of
/// searches for `key` that begin, miss the cache and overlap, exactly one
/// leads when coalescing is on and no flight for `key` was in progress,
/// and none when one was; every later one follows. Without coalescing
/// none leads, and each fetches on its own.
pub proof fn lemma_one_round_trip(keys: Option<Seq<Seq<char>>>, key: Seq<char>, n: nat)
    requires
        n > 0,
    ensures
        begins(keys, key, n).0 == (if keys is Some && !keys->0.contains(key) {
            1nat
        } else {
            0nat
        }),
        keys is Some ==> (begins(keys, key, n).1 is Some && begins(keys, key, n).1->0.contains(key)
            && plan(None, begins(keys, key, n).1, key) == SearchPlan::Follow),
        keys is None ==> begins(keys, key, n).1 is None,
    decreases n,
{
    if n > 1 {
        lemma_one_round_trip(keys, key, (n - 1) as nat);
    } else {
        assert(begins(keys, key, 0) == (0nat, keys));
        if let Some(ks) = keys {
            if !ks.contains(key) {
                assert(ks.push(key)[ks.len() as int] == key);
            }
        }
    }
}

/// Followers share their leader's result: after a search leads a flight
/// for `key` under `handle` (in a table with no flight for `key`), every
/// search for `key` that misses the cache follows, and the one flight
/// under `key` carries `handle`. `search_begin` hands each follower a
/// clone of that flight's handle and `search_end` hands the leader that
/// same handle back, so what the leader sends on it reaches them all.
pub proof fn lemma_followers_share_result<H>(keys: Seq<Seq<char>>, handles: Seq<H>, key: Seq<char>, handle: H)
    requires
        keys.len() == handles.len(),
        !keys.contains(key),
    ensures
        plan(None, Some(keys.push(key)), key) == SearchPlan::Follow,
        forall|i: int|
            0 <= i < keys.push(key).len() && #[trigger] keys.push(key)[i] == key ==> handles.push(
                handle,
            )[i] == handle,
{
    lemma_followers_wait_on_leader(keys, handles, key, handle);
    assert(keys.push(key)[keys.len() as int] == key);
}

/// A repeated search is answered from the cache: once `search_end` has
/// cached the response bytes `value` of a search for `key` at time
/// `stored`, an identical search beginning at `now` within the
/// time-to-live is answered with `value` and sends no request, whatever
/// flights are in progress, after any cache operations `ops` that neither
/// rewrite `key`, clear the cache nor evict `key`, and read `key` no later
/// than `now`.
pub proof fn lemma_repeat_search_hits(
    c: TtlCache,
    d: TtlCache,
    key: Seq<char>,
    value: Seq<u8>,
    stored: u128,
    ops: Seq<CacheOp>,
    now: nat,
    keys: Option<Seq<Seq<char>>>,
)
    requires
        c.well_formed(),
        d.spec_ttl() == c.spec_ttl(),
        d.entries() == apply_ops(
            entries_after_put(c.entries(), c.capacity(), (key, stored, value)),
            c.capacity(),
            c.spec_ttl(),
            ops,
        ),
        leaves_alone(ops, key),
        never_evicts(
            entries_after_put(c.entries(), c.capacity(), (key, stored, value)),
            c.capacity(),
            c.spec_ttl(),
            ops,
            key,
        ),
        reads_by(ops, key, now),
        !expired(stored as nat, now, c.spec_ttl()),
    ensures
        cache_read(Some(d), key, now) == Some(value),
        plan(cache_read(Some(d), key, now), keys, key) == SearchPlan::Answer,
{
    lemma_read_after_write_later(
        c.entries(),
        c.capacity(),
        c.spec_ttl(),
        key,
        value,
        stored,
        ops,
        now,
    );
}

/// The response cache and the flight table a client starts with: a cache
/// when the configuration asks for one, with its capacity and lifetime,
/// and a flight table when single-flight coalescing is on; both empty.
pub fn search_state<H>(config: &ClientConfig) -> (r: (Option<TtlCache>, Option<FlightTable<H>>))
    ensures
        cache_ok(r.0),
        flights_ok(r.1),
        match config.cache {
            Some(c) => r.0 matches Some(t) && t.entries() == Seq::<EntryView>::empty()
                && t.capacity() == c.spec_capacity() && t.spec_ttl() == c.spec_ttl(),
            None => r.0 is None,
        },
        match r.1 {
            Some(t) => config.singleflight && t.keys() == Seq::<Seq<char>>::empty() && t.handles()
                == Seq::<H>::empty(),
            None => !config.singleflight,
        },
{
    let cache = match &config.cache {
        Some(c) => Some(TtlCache::new(c.capacity(), c.ttl())),
        None => None,
    };
    let flights = if config.singleflight {
        Some(FlightTable::new())
    } else {
        None
    };
    (cache, flights)
}

} // verus!
