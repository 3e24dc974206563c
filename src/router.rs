//! The sticky router: each client key is routed to one backend of a fixed pool,
//! and keeps that backend while its route is younger than the TTL.

use rand::Rng;
use vstd::prelude::*;

verus! {

/// How long a routing decision stays valid: two seconds, in nanoseconds.
pub const TTL_NANOS: u128 = 2_000_000_000;

/// The first backend of the default pool.
pub const DEFAULT_BACKEND_A: &'static str = "127.0.0.1:8080";

/// The second backend of the default pool.
pub const DEFAULT_BACKEND_B: &'static str = "127.0.0.1:8081";

/// The routing table as a map from client key to the index of the chosen
/// backend in the pool and the time it was chosen (nanoseconds since the Unix
/// epoch).
pub type RouteTable = Map<Seq<char>, (usize, u128)>;

/// A route chosen at `assigned_at` is still valid at `now`. A clock that reads
/// earlier than the assignment makes the route stale.
pub open spec fn is_fresh(assigned_at: u128, now: u128) -> bool {
    assigned_at <= now && now - assigned_at < TTL_NANOS
}

/// The table holds a valid route for `key` at `now`.
pub open spec fn serves_cached(table: RouteTable, key: Seq<char>, now: u128) -> bool {
    table.contains_key(key) && is_fresh(table[key].1, now)
}

/// One resolution of `key` at `now`, where `pick` is the backend that a fresh
/// selection would choose: the table afterwards and the backend returned.
pub open spec fn resolve_model(table: RouteTable, key: Seq<char>, now: u128, pick: usize) -> (
    RouteTable,
    usize,
) {
    if serves_cached(table, key, now) {
        (table, table[key].0)
    } else {
        (table.insert(key, (pick, now)), pick)
    }
}

/// Stickiness: two resolutions of one key less than the TTL apart return the
/// same backend, and the second one changes nothing. This holds unless the
/// first resolution served an older route that expires between the two.
pub proof fn lemma_sticky(
    table: RouteTable,
    key: Seq<char>,
    t1: u128,
    t2: u128,
    pick1: usize,
    pick2: usize,
)
    requires
        t1 <= t2,
        t2 - t1 < TTL_NANOS,
        serves_cached(table, key, t1) ==> t2 - table[key].1 < TTL_NANOS,
    ensures
        resolve_model(resolve_model(table, key, t1, pick1).0, key, t2, pick2) == resolve_model(
            table,
            key,
            t1,
            pick1,
        ),
{
    let m1 = resolve_model(table, key, t1, pick1).0;
    assert(m1.contains_key(key));
    if !serves_cached(table, key, t1) {
        assert(m1[key] == (pick1, t1));
    }
    assert(serves_cached(m1, key, t2));
}

/// Expiry: a resolution that comes at least the TTL after an earlier one makes
/// a fresh selection and stamps the route with its own time.
pub proof fn lemma_expiry(
    table: RouteTable,
    key: Seq<char>,
    t1: u128,
    t2: u128,
    pick1: usize,
    pick2: usize,
)
    requires
        t2 - t1 >= TTL_NANOS,
    ensures
        ({
            let m1 = resolve_model(table, key, t1, pick1).0;
            resolve_model(m1, key, t2, pick2) == (m1.insert(key, (pick2, t2)), pick2)
        }),
{
    let m1 = resolve_model(table, key, t1, pick1).0;
    assert(m1.contains_key(key));
    assert(m1[key].1 <= t1);
    assert(!serves_cached(m1, key, t2));
}

/// Isolation: resolving one key leaves the route of every other key as it was.
pub proof fn lemma_isolation(
    table: RouteTable,
    key: Seq<char>,
    other: Seq<char>,
    now: u128,
    pick: usize,
)
    requires
        key != other,
    ensures
        resolve_model(table, key, now, pick).0.contains_key(other) == table.contains_key(other),
        table.contains_key(other) ==> resolve_model(table, key, now, pick).0[other]
            == table[other],
{
}

/// The wall clock of std, carried through opaquely.
#[verifier::external_type_specification]
#[verifier::external_body]
pub struct ExSystemTime(std::time::SystemTime);

/// Relies on std's `SystemTime::now`: a reading of the wall clock, of which
/// nothing is promised.
pub assume_specification[ std::time::SystemTime::now ]() -> std::time::SystemTime;

/// Relies on std's `SystemTime::duration_since(UNIX_EPOCH)`: the time since
/// the epoch, in nanoseconds, or `None` where the clock reads before it.
#[verifier::external_body]
fn nanos_since_epoch(t: &std::time::SystemTime) -> (r: Option<u128>) {
    match t.duration_since(std::time::UNIX_EPOCH) {
        Ok(d) => Some(d.as_nanos()),
        Err(_) => None,
    }
}

/// Relies on rand's `thread_rng().gen_range(0..n)`: a value drawn uniformly
/// from `0..n`, which panics on an empty range.
#[verifier::external_body]
fn random_below(n: usize) -> (r: usize)
    requires
        n > 0,
    ensures
        r < n,
{
    rand::thread_rng().gen_range(0..n)
}

/// The wall clock in nanoseconds since the Unix epoch; a clock that reads
/// before the epoch counts as the epoch itself.
fn clock_nanos() -> u128 {
    match nanos_since_epoch(&std::time::SystemTime::now()) {
        Some(t) => t,
        None => 0,
    }
}

/// One row of the routing table.
struct RouteEntry {
    key: String,
    backend: usize,
    assigned_at: u128,
}

/// The sticky router: a fixed, non-empty pool of backend addresses and the
/// table of the routes chosen so far, at most one per client key.
pub struct Cache {
    backends: Vec<String>,
    routes: Vec<RouteEntry>,
    table: Ghost<RouteTable>,
}

impl Cache {
    /// The backend addresses, in pool order.
    pub closed spec fn pool(&self) -> Seq<Seq<char>> {
        self.backends@.map_values(|b: String| b@)
    }

    /// The routing table.
    pub closed spec fn table(&self) -> RouteTable {
        self.table@
    }

    /// The pool is non-empty, every route names a backend of the pool, and the
    /// rows hold each key once and agree with the table.
    pub closed spec fn wf(&self) -> bool {
        &&& self.backends@.len() > 0
        &&& forall|k: Seq<char>| #[trigger]
            self.table@.contains_key(k) ==> self.table@[k].0 < self.backends@.len()
        &&& forall|i: int|
            0 <= i < self.routes@.len() ==> #[trigger] self.table@.contains_key(
                self.routes@[i].key@,
            ) && self.table@[self.routes@[i].key@] == (
                self.routes@[i].backend,
                self.routes@[i].assigned_at,
            )
        &&& forall|k: Seq<char>| #[trigger]
            self.table@.contains_key(k) ==> exists|i: int|
                0 <= i < self.routes@.len() && #[trigger] self.routes@[i].key@ == k
        &&& forall|i: int, j: int|
            0 <= i < j < self.routes@.len() ==> #[trigger] self.routes@[i].key@
                != #[trigger] self.routes@[j].key@
    }

    /// A router over the default pool, with an empty table.
    pub fn new() -> (r: Cache)
        ensures
            r.wf(),
            r.table() == RouteTable::empty(),
            r.pool() == seq![DEFAULT_BACKEND_A@, DEFAULT_BACKEND_B@],
    {
        let backends: Vec<String> = vec![DEFAULT_BACKEND_A.to_owned(), DEFAULT_BACKEND_B.to_owned()];
        let r = Cache { backends, routes: Vec::new(), table: Ghost(RouteTable::empty()) };
        assert(r.pool() =~= seq![DEFAULT_BACKEND_A@, DEFAULT_BACKEND_B@]);
        r
    }

    /// A router over the given pool, with an empty table.
    pub fn with_backends(backends: Vec<String>) -> (r: Cache)
        requires
            backends@.len() > 0,
        ensures
            r.wf(),
            r.table() == RouteTable::empty(),
            r.pool() == backends@.map_values(|b: String| b@),
    {
        Cache { backends, routes: Vec::new(), table: Ghost(RouteTable::empty()) }
    }

    /// The row that holds `key`, if any.
    fn find(&self, key: &String) -> (r: Option<usize>)
        requires
            self.wf(),
        ensures
            match r {
                Some(i) => i < self.routes@.len() && self.routes@[i as int].key@ == key@,
                None => !self.table().contains_key(key@),
            },
    {
        let mut i: usize = 0;
        while i < self.routes.len()
            invariant
                self.wf(),
                i <= self.routes@.len(),
                forall|j: int| 0 <= j < i ==> self.routes@[j].key@ != key@,
            decreases self.routes@.len() - i,
        {
            if self.routes[i].key == *key {
                return Some(i);
            }
            i = i + 1;
        }
        None
    }

    /// The backend that `key` is routed to at `now`, if its route is fresh.
    fn cached_backend(&self, key: &String, now: u128) -> (r: Option<usize>)
        requires
            self.wf(),
        ensures
            r == (if serves_cached(self.table(), key@, now) {
                Some(self.table()[key@].0)
            } else {
                None
            }),
    {
        match self.find(key) {
            Some(i) => {
                assert(self.table@.contains_key(self.routes@[i as int].key@));
                let at = self.routes[i].assigned_at;
                if at <= now && now - at < TTL_NANOS {
                    Some(self.routes[i].backend)
                } else {
                    None
                }
            },
            None => None,
        }
    }

    /// Routes `key` to backend `pick` from `now` on, replacing its old route.
    fn assign(&mut self, key: String, now: u128, pick: usize)
        requires
            old(self).wf(),
            pick < old(self).backends@.len(),
        ensures
            final(self).wf(),
            final(self).backends == old(self).backends,
            final(self).table() == old(self).table().insert(key@, (pick, now)),
    {
        let ghost k = key@;
        let ghost old_routes = self.routes@;
        let entry = RouteEntry { key, backend: pick, assigned_at: now };
        match self.find(&entry.key) {
            Some(i) => {
                self.routes.set(i, entry);
                self.table = Ghost(self.table@.insert(k, (pick, now)));
                assert forall|j: int| 0 <= j < self.routes@.len() && j != i implies #[trigger] self.routes@[j].key@ != k by {
                    assert(old_routes[j].key@ != old_routes[i as int].key@);
                }
                assert forall|k2: Seq<char>| #[trigger]
                    self.table@.contains_key(k2) implies exists|j: int|
                        0 <= j < self.routes@.len() && #[trigger] self.routes@[j].key@ == k2 by {
                    if k2 != k {
                        let j = choose|j: int| 0 <= j < old_routes.len() && old_routes[j].key@ == k2;
                        assert(self.routes@[j].key@ == k2);
                    } else {
                        assert(self.routes@[i as int].key@ == k2);
                    }
                }
            },
            None => {
                self.routes.push(entry);
                self.table = Ghost(self.table@.insert(k, (pick, now)));
                let ghost last = old_routes.len() as int;
                assert forall|j: int| 0 <= j < last implies #[trigger] self.routes@[j].key@ != k by {
                    assert(old(self).table@.contains_key(old_routes[j].key@));
                }
                assert forall|k2: Seq<char>| #[trigger]
                    self.table@.contains_key(k2) implies exists|j: int|
                        0 <= j < self.routes@.len() && #[trigger] self.routes@[j].key@ == k2 by {
                    if k2 != k {
                        let j = choose|j: int| 0 <= j < old_routes.len() && old_routes[j].key@ == k2;
                        assert(self.routes@[j].key@ == k2);
                    } else {
                        assert(self.routes@[last].key@ == k2);
                    }
                }
            },
        }
    }

    /// Resolves `ip` at time `now` (nanoseconds since the Unix epoch): the
    /// backend of its route while that route is fresh; otherwise backend
    /// `pick` of the pool, which becomes the key's route from `now` on.
    pub fn get_server_at(&mut self, ip: &str, now: u128, pick: usize) -> (r: String)
        requires
            old(self).wf(),
            pick < old(self).pool().len(),
        ensures
            final(self).wf(),
            final(self).pool() == old(self).pool(),
            final(self).table() == resolve_model(old(self).table(), ip@, now, pick).0,
            r@ == old(self).pool()[resolve_model(old(self).table(), ip@, now, pick).1 as int],
    {
        let key = ip.to_owned();
        let b = match self.cached_backend(&key, now) {
            Some(b) => b,
            None => {
                self.assign(key, now, pick);
                pick
            },
        };
        self.backends[b].clone()
    }

    /// Resolves `ip` now: the backend of its route while that route is fresh;
    /// otherwise a backend drawn uniformly from the pool, which becomes the
    /// key's route. The result is one resolution at some time `now` with some
    /// draw `pick` from the pool.
    pub fn get_server(&mut self, ip: &str) -> (r: String)
        requires
            old(self).wf(),
        ensures
            final(self).wf(),
            final(self).pool() == old(self).pool(),
            exists|now: u128, pick: usize|
                #![trigger resolve_model(old(self).table(), ip@, now, pick)]
                pick < old(self).pool().len() && final(self).table() == resolve_model(
                    old(self).table(),
                    ip@,
                    now,
                    pick,
                ).0 && r@ == old(self).pool()[resolve_model(old(self).table(), ip@, now, pick).1 as int],
    {
        let now = clock_nanos();
        let key = ip.to_owned();
        let ghost pick: usize = 0;
        let b = match self.cached_backend(&key, now) {
            Some(b) => b,
            None => {
                let drawn = random_below(self.backends.len());
                proof {
                    pick = drawn;
                }
                self.assign(key, now, drawn);
                drawn
            },
        };
        assert(resolve_model(old(self).table(), ip@, now, pick).1 == b);
        self.backends[b].clone()
    }
}

} // verus!
