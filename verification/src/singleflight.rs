//! Single-flight bookkeeping: which requests are in flight, and who waits
//! on whom.
//!
//! When concurrent callers issue identical requests, only the first (the
//! leader) performs the work; the rest (followers) wait on the leader's
//! flight and receive a copy of its result. The table maps each request key
//! in flight to the handle followers subscribe through.
use vstd::prelude::*;

use crate::text::str_eq;

verus! {

/// The requests in flight, each with the handle its followers wait on.
///
/// The flights are kept as a sequence with no key twice rather than a
/// `HashMap<String, H>`: vstd specifies `HashMap` only for key types that
/// obey its key model, which it establishes for integers and not for
/// `String`, so no operation on such a map could be proved. Keying by an
/// integer would mean hashing the request key, and a collision would make
/// two different searches share one flight.
pub struct FlightTable<H> {
    flights: Vec<(String, H)>,
}

/// How a caller joins a request.
pub enum Role<'a, H> {
    /// Nobody was running the request: the caller runs it.
    Leader,
    /// The request is already in flight: wait on this handle.
    Follower(&'a H),
}

impl<H> FlightTable<H> {
    /// The keys in flight, oldest first.
    pub closed spec fn keys(&self) -> Seq<Seq<char>> {
        self.flights@.map_values(|f: (String, H)| f.0@)
    }

    /// The handle of each flight, in the order of `keys`.
    pub closed spec fn handles(&self) -> Seq<H> {
        self.flights@.map_values(|f: (String, H)| f.1)
    }

    /// Each key is in flight at most once, and each flight has its handle.
    pub open spec fn well_formed(&self) -> bool {
        &&& self.keys().len() == self.handles().len()
        &&& forall|i: int, j: int|
            0 <= i < self.keys().len() && 0 <= j < self.keys().len() && i != j ==> self.keys()[i]
                != self.keys()[j]
    }

    /// Nothing in flight.
    pub fn new() -> (r: FlightTable<H>)
        ensures
            r.keys() == Seq::<Seq<char>>::empty(),
            r.handles() == Seq::<H>::empty(),
            r.well_formed(),
    {
        let r = FlightTable { flights: Vec::new() };
        proof {
            assert(r.keys() =~= Seq::<Seq<char>>::empty());
            assert(r.handles() =~= Seq::<H>::empty());
        }
        r
    }

    fn position(&self, key: &str) -> (r: Option<usize>)
        ensures
            match r {
                Some(i) => i < self.keys().len() && self.keys()[i as int] == key@,
                None => !self.keys().contains(key@),
            },
    {
        let mut i: usize = 0;
        while i < self.flights.len()
            invariant
                i <= self.flights@.len(),
                self.keys().len() == self.flights@.len(),
                forall|k: int| 0 <= k < i ==> self.keys()[k] != key@,
            decreases self.flights@.len() - i,
        {
            proof {
                assert(self.keys()[i as int] == self.flights@[i as int].0@);
            }
            if str_eq(self.flights[i].0.as_str(), key) {
                return Some(i);
            }
            i = i + 1;
        }
        None
    }

    /// How a caller with request `key` joins: as a follower of the flight in
    /// progress for that key, or as the leader when there is none.
    pub fn join(&self, key: &str) -> (r: Role<'_, H>)
        ensures
            match r {
                Role::Leader => !self.keys().contains(key@),
                Role::Follower(h) => exists|i: int|
                    0 <= i < self.keys().len() && self.keys()[i] == key@ && self.handles()[i] == *h,
            },
    {
        match self.position(key) {
            Some(i) => {
                proof {
                    assert(self.handles()[i as int] == self.flights@[i as int].1);
                }
                Role::Follower(&self.flights[i].1)
            },
            None => Role::Leader,
        }
    }

    /// Records that the leader of `key` started, with the handle its
    /// followers will wait on.
    pub fn start(&mut self, key: String, handle: H)
        requires
            old(self).well_formed(),
            !old(self).keys().contains(key@),
        ensures
            final(self).well_formed(),
            final(self).keys() == old(self).keys().push(key@),
            final(self).handles() == old(self).handles().push(handle),
    {
        let ghost k = key@;
        self.flights.push((key, handle));
        proof {
            assert(self.keys() =~= old(self).keys().push(k));
            assert(self.handles() =~= old(self).handles().push(handle));
        }
    }

    /// Ends the flight of `key`, handing back its handle so the leader can
    /// deliver the result; later callers with `key` lead a new flight.
    pub fn finish(&mut self, key: &str) -> (r: Option<H>)
        requires
            old(self).well_formed(),
        ensures
            final(self).well_formed(),
            !final(self).keys().contains(key@),
            r is Some <==> old(self).keys().contains(key@),
            match r {
                Some(h) => exists|i: int|
                    0 <= i < old(self).keys().len() && old(self).keys()[i] == key@
                        && old(self).handles()[i] == h && final(self).keys() == old(
                        self,
                    ).keys().remove(i) && final(self).handles() == old(self).handles().remove(i),
                None => final(self).keys() == old(self).keys() && final(self).handles() == old(
                    self,
                ).handles(),
            },
            final(self).keys().len() == old(self).keys().len() - (if r is Some { 1int } else { 0 }),
            forall|k: Seq<char>|
                k != key@ ==> (final(self).keys().contains(k) <==> old(self).keys().contains(k)),
    {
        match self.position(key) {
            Some(i) => {
                let ghost before = self.flights@;
                let (_, h) = self.flights.remove(i);
                proof {
                    let ks = old(self).keys();
                    assert(self.flights@ =~= before.remove(i as int));
                    assert(self.keys() =~= ks.remove(i as int));
                    assert(self.handles() =~= old(self).handles().remove(i as int));
                    assert(old(self).handles()[i as int] == h);
                    assert forall|k: Seq<char>| k != key@ implies (self.keys().contains(k)
                        <==> ks.contains(k)) by {
                        if ks.contains(k) {
                            let j = choose|j: int| 0 <= j < ks.len() && ks[j] == k;
                            if j < i {
                                assert(self.keys()[j] == k);
                            } else {
                                assert(j != i);
                                assert(self.keys()[j - 1] == k);
                            }
                        }
                    }
                    if self.keys().contains(key@) {
                        let j = choose|j: int| 0 <= j < self.keys().len() && self.keys()[j] == key@;
                        if j < i {
                            assert(ks[j] == key@);
                        } else {
                            assert(ks[j + 1] == key@);
                        }
                    }
                }
                Some(h)
            },
            None => None,
        }
    }
}

/// While a request is in flight, every other caller with the same key
/// follows it instead of starting another: at most one flight per key.
pub proof fn lemma_one_flight_per_key<H>(t: FlightTable<H>, key: Seq<char>)
    requires
        t.well_formed(),
    ensures
        forall|i: int, j: int|
            0 <= i < t.keys().len() && 0 <= j < t.keys().len() && t.keys()[i] == key && t.keys()[j]
                == key ==> i == j,
{
}

/// Followers wait on their leader: once the leader of `key` has started
/// with `handle` in a table that had no flight for `key`, the one flight
/// under `key`, which every later caller with `key` joins and whose handle
/// `finish` hands back, carries `handle`.
pub proof fn lemma_followers_wait_on_leader<H>(keys: Seq<Seq<char>>, handles: Seq<H>, key: Seq<char>, handle: H)
    requires
        keys.len() == handles.len(),
        !keys.contains(key),
    ensures
        forall|i: int|
            0 <= i < keys.push(key).len() && #[trigger] keys.push(key)[i] == key ==> handles.push(
                handle,
            )[i] == handle,
{
    assert forall|i: int|
        0 <= i < keys.push(key).len() && #[trigger] keys.push(key)[i] == key implies handles.push(
        handle,
    )[i] == handle by {
        if i < keys.len() {
            assert(keys[i] == key);
            assert(keys.contains(key));
        }
    }
}

} // verus!
