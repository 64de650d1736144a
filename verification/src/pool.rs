//! The connection pool as a state machine: it decides whether a caller gets
//! an idle connection, a new one or a place in the queue, and what becomes of
//! a connection that comes back. Opening and probing connections is the
//! host's part; it reports what happened and the pool keeps the books.

use vstd::prelude::*;
use crate::bridge::BlockingBridge;
use crate::error::Error;

verus! {

/// A lease on one connection. The pool names each connection it admits with
/// an id of its own; the lease carries that id and the connection.
pub struct PooledConnection<C> {
    id: u64,
    conn: BlockingBridge<C>,
}

impl<C> PooledConnection<C> {
    /// The id under which the pool knows the connection.
    pub closed spec fn spec_id(&self) -> u64 {
        self.id
    }

    /// The connection inside the lease, if it is there.
    pub closed spec fn connection(&self) -> Option<C> {
        self.conn@
    }

    /// The id under which the pool knows the connection.
    #[verifier::when_used_as_spec(spec_id)]
    pub fn id(&self) -> (id: u64)
        ensures
            id == self.spec_id(),
    {
        self.id
    }

    /// Moves the connection out of the lease, which stays behind empty.
    pub fn take(&mut self) -> (conn: BlockingBridge<C>)
        ensures
            conn@ == old(self).connection(),
            final(self).connection() is None,
            final(self).spec_id() == old(self).spec_id(),
    {
        self.conn.take()
    }

    /// Puts a connection into the lease, in place of what it held.
    pub fn put(&mut self, conn: BlockingBridge<C>)
        ensures
            final(self).connection() == conn@,
            final(self).spec_id() == old(self).spec_id(),
    {
        self.conn = conn;
    }

    /// Whether the lease must not be reused: it is broken exactly when it
    /// holds no connection. A connection whose last statement failed still
    /// counts as sound.
    pub fn has_broken(&self) -> (broken: bool)
        ensures
            broken == (self.connection() is None),
    {
        self.conn.is_poisoned()
    }
}

/// How large the pool may grow and how long a connection may lie idle.
#[derive(Clone, Copy, Debug, PartialEq, Eq)]
pub struct PoolConfig {
    /// The most connections that may exist at one time.
    pub max_size: usize,
    /// After how many seconds an idle connection is closed; never for `None`.
    pub idle_timeout: Option<u64>,
    /// How many seconds a caller may wait for a connection; without limit
    /// for `None`, not at all for `Some(0)`.
    pub wait_timeout: Option<u64>,
}

impl PoolConfig {
    /// The pool of the database module: fifteen connections, idle ones
    /// closed after five minutes, callers waiting as long as it takes.
    pub fn database_default() -> (config: Self)
        ensures
            config.max_size == 15,
            config.idle_timeout == Some(300u64),
            config.wait_timeout is None,
    {
        PoolConfig { max_size: 15, idle_timeout: Some(300), wait_timeout: None }
    }
}

/// What the pool decided for a caller that asked for a connection.
pub enum Checkout<C> {
    /// An idle connection was taken out for the caller. The host probes it
    /// and reports with `validated`.
    Validate(PooledConnection<C>),
    /// A place was reserved for a new connection. The host opens one and
    /// reports with `connected`.
    Connect,
    /// The pool is full. The caller waits under this ticket until `release`
    /// wakes it, and then asks again.
    Wait(u64),
}

/// The books of a pool: which connections lie idle, which are leased, how
/// many are being opened and who waits.
pub struct Pool<C> {
    config: PoolConfig,
    idle: Vec<PooledConnection<C>>,
    idle_since: Vec<u64>,
    live: Vec<u64>,
    opening: usize,
    waiters: Vec<u64>,
    next_id: u64,
    next_ticket: u64,
}

/// Whether `after` is `before` with the one occurrence of `id` taken out, or
/// `before` itself where `id` does not occur.
pub open spec fn removed(before: Seq<u64>, id: u64, after: Seq<u64>) -> bool {
    if before.contains(id) {
        exists|k: int|
            0 <= k < before.len() && before[k] == id && after == #[trigger] before.remove(k)
    } else {
        after == before
    }
}

/// What is left after `id` was taken out of a list without repetitions: all
/// the others, and not `id`.
pub proof fn lemma_removed(before: Seq<u64>, id: u64, after: Seq<u64>)
    requires
        removed(before, id, after),
        before.no_duplicates(),
    ensures
        after.no_duplicates(),
        forall|other: u64| #[trigger] after.contains(other) <==> before.contains(other) && other != id,
        before.contains(id) ==> after.len() + 1 == before.len(),
{
    if before.contains(id) {
        let k = choose|k: int| 0 <= k < before.len() && before[k] == id && after == before.remove(k);
        assert forall|other: u64| #[trigger]
            after.contains(other) <==> before.contains(other) && other != id by {
            if after.contains(other) {
                let j = choose|j: int| 0 <= j < after.len() && after[j] == other;
                if j < k {
                    assert(before[j] == other);
                } else {
                    assert(before[j + 1] == other);
                }
            }
            if before.contains(other) && other != id {
                let j = choose|j: int| 0 <= j < before.len() && before[j] == other;
                if j < k {
                    assert(after[j] == other);
                } else {
                    assert(after[j - 1] == other);
                }
            }
        }
    }
}

/// Whether a connection that has lain idle since `since` is due to be closed
/// at the time `now`.
pub open spec fn expired(timeout: Option<u64>, since: u64, now: u64) -> bool {
    timeout matches Some(limit) && now - since >= limit
}

/// Where `id` stands in `ids`, if it does.
fn position(ids: &Vec<u64>, id: u64) -> (found: Option<usize>)
    ensures
        match found {
            Some(k) => k < ids@.len() && ids@[k as int] == id,
            None => !ids@.contains(id),
        },
{
    let mut k: usize = 0;
    while k < ids.len()
        invariant
            k <= ids@.len(),
            forall|j: int| 0 <= j < k ==> ids@[j] != id,
        decreases ids@.len() - k,
    {
        if ids[k] == id {
            return Some(k);
        }
        k += 1;
    }
    None
}

impl<C> Pool<C> {
    /// The configuration the pool was made with.
    pub closed spec fn config(&self) -> PoolConfig {
        self.config
    }

    /// The ids of the idle connections, the one that came back last at the
    /// end.
    pub closed spec fn idle_ids(&self) -> Seq<u64> {
        Seq::new(self.idle@.len(), |i: int| self.idle@[i].id)
    }

    /// For each idle connection, in the order of `idle_ids`, the time at
    /// which it came back.
    pub closed spec fn idle_since(&self) -> Seq<u64> {
        self.idle_since@
    }

    /// The ids of the connections that are leased out.
    pub closed spec fn live_ids(&self) -> Seq<u64> {
        self.live@
    }

    /// How many connections are being opened.
    pub closed spec fn opening(&self) -> nat {
        self.opening as nat
    }

    /// The tickets of the callers that wait, the one that has waited longest
    /// first.
    pub closed spec fn waiting(&self) -> Seq<u64> {
        self.waiters@
    }

    /// How many connections exist or are being opened.
    pub open spec fn size(&self) -> nat {
        self.idle_ids().len() + self.live_ids().len() + self.opening()
    }

    /// What holds between calls: no id occurs twice among the idle and the
    /// leased connections, every idle lease holds its connection, the pool
    /// is no larger than configured, and no ticket waits twice.
    pub closed spec fn wf(&self) -> bool {
        &&& self.idle_since@.len() == self.idle@.len()
        &&& forall|i: int, j: int|
            0 <= i < j < self.idle@.len() ==> self.idle@[i].id != self.idle@[j].id
        &&& forall|i: int, j: int| 0 <= i < j < self.live@.len() ==> self.live@[i] != self.live@[j]
        &&& forall|i: int, j: int|
            0 <= i < self.idle@.len() && 0 <= j < self.live@.len() ==> self.idle@[i].id
                != self.live@[j]
        &&& forall|i: int| 0 <= i < self.idle@.len() ==> self.idle@[i].id < self.next_id
        &&& forall|j: int| 0 <= j < self.live@.len() ==> self.live@[j] < self.next_id
        &&& forall|i: int| 0 <= i < self.idle@.len() ==> self.idle@[i].conn@ is Some
        &&& self.idle@.len() + self.live@.len() + self.opening <= self.config.max_size
        &&& forall|i: int, j: int|
            0 <= i < j < self.waiters@.len() ==> self.waiters@[i] != self.waiters@[j]
        &&& forall|i: int| 0 <= i < self.waiters@.len() ==> self.waiters@[i] < self.next_ticket
    }

    /// An empty pool.
    pub fn new(config: PoolConfig) -> (pool: Self)
        ensures
            pool.wf(),
            pool.config() == config,
            pool.idle_ids().len() == 0,
            pool.live_ids().len() == 0,
            pool.opening() == 0,
            pool.waiting().len() == 0,
            pool.ids_issued() == 0,
            pool.tickets_issued() == 0,
    {
        Pool {
            config,
            idle: Vec::new(),
            idle_since: Vec::new(),
            live: Vec::new(),
            opening: 0,
            waiters: Vec::new(),
            next_id: 0,
            next_ticket: 0,
        }
    }

    /// How many tickets the pool has given to waiting callers. Tickets are
    /// given in order: this is the next one.
    pub closed spec fn tickets_issued(&self) -> u64 {
        self.next_ticket
    }

    /// How many ids the pool has given to connections. Ids are given in
    /// order: this is the next one.
    pub closed spec fn ids_issued(&self) -> u64 {
        self.next_id
    }

    /// Whether the pool has used up the tickets it can give to waiting
    /// callers.
    pub open spec fn tickets_spent(&self) -> bool {
        self.tickets_issued() == u64::MAX
    }

    /// Whether the pool has used up the ids it can give to connections.
    pub open spec fn ids_spent(&self) -> bool {
        self.ids_issued() == u64::MAX
    }

    /// Decides what a caller that asks for a connection gets: the idle
    /// connection that came back last, if there is one; else a place for a
    /// new connection, if the pool may still grow; else a ticket to wait
    /// with. A full pool whose callers may not wait, or that has no ticket
    /// left, answers `PoolExhausted` and changes nothing.
    pub fn get(&mut self) -> (r: Result<Checkout<C>, Error>)
        requires
            old(self).wf(),
        ensures
            final(self).wf(),
            final(self).config() == old(self).config(),
            final(self).ids_issued() == old(self).ids_issued(),
            forall|id: u64|
                old(self).live_ids().contains(id) ==> #[trigger] final(self).live_ids().contains(id),
            match r {
                Ok(Checkout::Validate(conn)) => {
                    &&& old(self).idle_ids().len() > 0
                    &&& conn.spec_id() == old(self).idle_ids().last()
                    &&& conn.connection() is Some
                    &&& !old(self).live_ids().contains(conn.spec_id())
                    &&& final(self).idle_ids() == old(self).idle_ids().drop_last()
                    &&& final(self).idle_since() == old(self).idle_since().drop_last()
                    &&& final(self).live_ids() == old(self).live_ids().push(conn.spec_id())
                    &&& final(self).live_ids().contains(conn.spec_id())
                    &&& final(self).opening() == old(self).opening()
                    &&& final(self).waiting() == old(self).waiting()
                    &&& final(self).tickets_issued() == old(self).tickets_issued()
                },
                Ok(Checkout::Connect) => {
                    &&& old(self).idle_ids().len() == 0
                    &&& old(self).size() < old(self).config().max_size
                    &&& final(self).idle_ids() == old(self).idle_ids()
                    &&& final(self).idle_since() == old(self).idle_since()
                    &&& final(self).live_ids() == old(self).live_ids()
                    &&& final(self).opening() == old(self).opening() + 1
                    &&& final(self).waiting() == old(self).waiting()
                    &&& final(self).tickets_issued() == old(self).tickets_issued()
                },
                Ok(Checkout::Wait(ticket)) => {
                    &&& old(self).idle_ids().len() == 0
                    &&& old(self).size() == old(self).config().max_size
                    &&& old(self).config().wait_timeout != Some(0u64)
                    &&& ticket == old(self).tickets_issued()
                    &&& final(self).tickets_issued() == ticket + 1
                    &&& !old(self).waiting().contains(ticket)
                    &&& final(self).idle_ids() == old(self).idle_ids()
                    &&& final(self).idle_since() == old(self).idle_since()
                    &&& final(self).live_ids() == old(self).live_ids()
                    &&& final(self).opening() == old(self).opening()
                    &&& final(self).waiting() == old(self).waiting().push(ticket)
                    &&& final(self).waiting().contains(ticket)
                },
                Err(e) => {
                    &&& e == Error::PoolExhausted
                    &&& old(self).idle_ids().len() == 0
                    &&& old(self).size() == old(self).config().max_size
                    &&& old(self).config().wait_timeout == Some(0u64) || old(self).tickets_spent()
                    &&& *final(self) == *old(self)
                },
            },
    {
        if self.idle.len() > 0 {
            let conn = self.idle.pop().unwrap();
            self.idle_since.pop();
            self.live.push(conn.id);
            proof {
                assert(self.idle_ids() =~= old(self).idle_ids().drop_last());
                assert(!old(self).live_ids().contains(conn.id));
                assert(self.live_ids().last() == conn.id);
                assert forall|id: u64| old(self).live_ids().contains(id) implies self.live_ids().contains(
                    id,
                ) by {
                    let k = choose|k: int| 0 <= k < old(self).live@.len() && old(self).live@[k] == id;
                    assert(self.live@[k] == id);
                }
            }
            Ok(Checkout::Validate(conn))
        } else if self.live.len() + self.opening < self.config.max_size {
            self.opening = self.opening + 1;
            Ok(Checkout::Connect)
        } else {
            let no_wait = match self.config.wait_timeout {
                Some(limit) => limit == 0,
                None => false,
            };
            if no_wait || self.next_ticket == u64::MAX {
                Err(Error::PoolExhausted)
            } else {
                let ticket = self.next_ticket;
                self.next_ticket = self.next_ticket + 1;
                self.waiters.push(ticket);
                proof {
                    assert(!old(self).waiting().contains(ticket));
                    assert(self.waiting().last() == ticket);
                }
                Ok(Checkout::Wait(ticket))
            }
        }
    }

    /// Takes `id` off the list of leased connections.
    fn retire(&mut self, id: u64) -> (was_live: bool)
        requires
            old(self).wf(),
        ensures
            final(self).wf(),
            was_live == old(self).live_ids().contains(id),
            removed(old(self).live_ids(), id, final(self).live_ids()),
            !final(self).live_ids().contains(id),
            final(self).config() == old(self).config(),
            final(self).idle_ids() == old(self).idle_ids(),
            final(self).idle_since() == old(self).idle_since(),
            final(self).opening() == old(self).opening(),
            final(self).waiting() == old(self).waiting(),
            final(self).idle == old(self).idle,
            final(self).ids_issued() == old(self).ids_issued(),
            final(self).tickets_issued() == old(self).tickets_issued(),
            was_live ==> final(self).live_ids().len() + 1 == old(self).live_ids().len(),
    {
        match position(&self.live, id) {
            Some(k) => {
                self.live.remove(k);
                proof {
                    let before = old(self).live@;
                    assert(self.live@ == before.remove(k as int));
                    assert forall|j: int| 0 <= j < self.live@.len() implies self.live@[j] != id by {
                        if j < k {
                            assert(self.live@[j] == before[j]);
                        } else {
                            assert(self.live@[j] == before[j + 1]);
                        }
                    }
                }
                true
            },
            None => false,
        }
    }

    /// Takes the caller that has waited longest off the queue, if any waits.
    fn wake(&mut self) -> (ticket: Option<u64>)
        requires
            old(self).wf(),
        ensures
            final(self).wf(),
            final(self).config() == old(self).config(),
            final(self).idle_ids() == old(self).idle_ids(),
            final(self).idle_since() == old(self).idle_since(),
            final(self).live_ids() == old(self).live_ids(),
            final(self).opening() == old(self).opening(),
            final(self).ids_issued() == old(self).ids_issued(),
            final(self).tickets_issued() == old(self).tickets_issued(),
            if old(self).waiting().len() > 0 {
                ticket == Some(old(self).waiting()[0])
                    && final(self).waiting() == old(self).waiting().drop_first()
            } else {
                ticket is None && final(self).waiting() == old(self).waiting()
            },
    {
        if self.waiters.len() > 0 {
            let ticket = self.waiters.remove(0);
            assert(self.waiters@ =~= old(self).waiters@.drop_first());
            Some(ticket)
        } else {
            None
        }
    }

    /// Takes in what the host found when it probed a connection that `get`
    /// had taken from the idle ones. A connection that answered, still holds
    /// its value and is on the pool's books goes to the caller. Any other is
    /// struck off the books and dropped, and the caller asks again.
    pub fn validated(&mut self, conn: PooledConnection<C>, valid: bool) -> (lease: Option<
        PooledConnection<C>,
    >)
        requires
            old(self).wf(),
        ensures
            final(self).wf(),
            final(self).config() == old(self).config(),
            final(self).idle_ids() == old(self).idle_ids(),
            final(self).idle_since() == old(self).idle_since(),
            final(self).opening() == old(self).opening(),
            final(self).waiting() == old(self).waiting(),
            final(self).ids_issued() == old(self).ids_issued(),
            final(self).tickets_issued() == old(self).tickets_issued(),
            if valid && conn.connection() is Some && old(self).live_ids().contains(conn.spec_id()) {
                lease == Some(conn) && final(self).live_ids() == old(self).live_ids()
            } else {
                lease is None && removed(
                    old(self).live_ids(),
                    conn.spec_id(),
                    final(self).live_ids(),
                )
            },
    {
        if valid && !conn.has_broken() && position(&self.live, conn.id).is_some() {
            Some(conn)
        } else {
            self.retire(conn.id);
            None
        }
    }

    /// Takes in what became of the connection that the host opened after
    /// `get` answered `Connect`. The place that was reserved is given up.
    /// A connection that was opened is leased out under a fresh id; where no
    /// place was reserved, or no id is left, it is dropped and the answer is
    /// `PoolExhausted`. A failure to open is handed on, and the caller that
    /// has waited longest is woken to use the place: its ticket is the
    /// second result.
    pub fn connected(&mut self, outcome: Result<C, Error>) -> (r: (
        Result<PooledConnection<C>, Error>,
        Option<u64>,
    ))
        requires
            old(self).wf(),
        ensures
            final(self).wf(),
            final(self).config() == old(self).config(),
            final(self).idle_ids() == old(self).idle_ids(),
            final(self).idle_since() == old(self).idle_since(),
            final(self).opening() == if old(self).opening() > 0 {
                (old(self).opening() - 1) as nat
            } else {
                0
            },
            final(self).tickets_issued() == old(self).tickets_issued(),
            forall|id: u64|
                old(self).live_ids().contains(id) ==> #[trigger] final(self).live_ids().contains(id),
            match r.0 {
                Ok(lease) => {
                    &&& outcome matches Ok(c)
                    &&& old(self).opening() > 0
                    &&& !old(self).ids_spent()
                    &&& lease.spec_id() == old(self).ids_issued()
                    &&& final(self).ids_issued() == old(self).ids_issued() + 1
                    &&& lease.connection() == Some(c)
                    &&& !old(self).live_ids().contains(lease.spec_id())
                    &&& !old(self).idle_ids().contains(lease.spec_id())
                    &&& final(self).live_ids() == old(self).live_ids().push(lease.spec_id())
                    &&& final(self).live_ids().contains(lease.spec_id())
                    &&& r.1 is None
                    &&& final(self).waiting() == old(self).waiting()
                },
                Err(e) => {
                    &&& final(self).live_ids() == old(self).live_ids()
                    &&& final(self).ids_issued() == old(self).ids_issued()
                    &&& match outcome {
                        Ok(_) => e == Error::PoolExhausted
                            && (old(self).opening() == 0 || old(self).ids_spent()),
                        Err(cause) => e == cause,
                    }
                    &&& if old(self).waiting().len() > 0 {
                        r.1 == Some(old(self).waiting()[0])
                            && final(self).waiting() == old(self).waiting().drop_first()
                    } else {
                        r.1 is None && final(self).waiting() == old(self).waiting()
                    }
                },
            },
    {
        let reserved = self.opening > 0;
        if reserved {
            self.opening = self.opening - 1;
        }
        match outcome {
            Ok(c) => {
                if reserved && self.next_id < u64::MAX {
                    let id = self.next_id;
                    self.next_id = self.next_id + 1;
                    self.live.push(id);
                    let lease = PooledConnection { id, conn: BlockingBridge::new(c) };
                    proof {
                        assert(!old(self).live_ids().contains(id));
                        assert(!old(self).idle_ids().contains(id));
                        assert(self.live_ids().last() == id);
                        assert forall|other: u64|
                            old(self).live_ids().contains(other) implies self.live_ids().contains(
                            other,
                        ) by {
                            let k = choose|k: int|
                                0 <= k < old(self).live@.len() && old(self).live@[k] == other;
                            assert(self.live@[k] == other);
                        }
                    }
                    (Ok(lease), None)
                } else {
                    let ticket = self.wake();
                    (Err(Error::PoolExhausted), ticket)
                }
            },
            Err(e) => {
                let ticket = self.wake();
                (Err(e), ticket)
            },
        }
    }

    /// Takes a lease back at the time `now`. A lease that is not on the
    /// pool's books is dropped and nothing changes. Otherwise the lease is
    /// struck off; if it still holds its connection the connection lies idle
    /// from `now` on, and if it is broken the connection is gone. Either way
    /// the caller that has waited longest is woken: its ticket is returned.
    pub fn release(&mut self, conn: PooledConnection<C>, now: u64) -> (ticket: Option<u64>)
        requires
            old(self).wf(),
        ensures
            final(self).wf(),
            final(self).config() == old(self).config(),
            final(self).opening() == old(self).opening(),
            final(self).ids_issued() == old(self).ids_issued(),
            final(self).tickets_issued() == old(self).tickets_issued(),
            removed(old(self).live_ids(), conn.spec_id(), final(self).live_ids()),
            if old(self).live_ids().contains(conn.spec_id()) && conn.connection() is Some {
                final(self).idle_ids() == old(self).idle_ids().push(conn.spec_id())
                    && final(self).idle_since() == old(self).idle_since().push(now)
            } else {
                final(self).idle_ids() == old(self).idle_ids()
                    && final(self).idle_since() == old(self).idle_since()
            },
            if old(self).live_ids().contains(conn.spec_id()) && old(self).waiting().len() > 0 {
                ticket == Some(old(self).waiting()[0])
                    && final(self).waiting() == old(self).waiting().drop_first()
            } else {
                ticket is None && final(self).waiting() == old(self).waiting()
            },
    {
        if !self.retire(conn.id) {
            return None;
        }
        if !conn.has_broken() {
            let ghost id = conn.id;
            self.idle.push(conn);
            self.idle_since.push(now);
            proof {
                assert(self.idle_ids() =~= old(self).idle_ids().push(id));
            }
        }
        self.wake()
    }

    /// Takes in that the time of a waiting caller has run out. A ticket that
    /// still waits leaves the queue and the caller is owed `Timeout`; a
    /// ticket that no longer waits was woken already and nothing changes.
    pub fn wait_timed_out(&mut self, ticket: u64) -> (failure: Option<Error>)
        requires
            old(self).wf(),
        ensures
            final(self).wf(),
            final(self).config() == old(self).config(),
            final(self).idle_ids() == old(self).idle_ids(),
            final(self).idle_since() == old(self).idle_since(),
            final(self).live_ids() == old(self).live_ids(),
            final(self).opening() == old(self).opening(),
            final(self).ids_issued() == old(self).ids_issued(),
            final(self).tickets_issued() == old(self).tickets_issued(),
            removed(old(self).waiting(), ticket, final(self).waiting()),
            failure == if old(self).waiting().contains(ticket) {
                Some(Error::Timeout)
            } else {
                None
            },
    {
        match position(&self.waiters, ticket) {
            Some(k) => {
                self.waiters.remove(k);
                assert(self.waiters@ == old(self).waiters@.remove(k as int));
                Some(Error::Timeout)
            },
            None => None,
        }
    }

    /// Takes out the first idle connection that has lain idle for the
    /// configured time or longer at `now`, for the host to close. It answers
    /// `None` when no idle connection is due; the host calls until then.
    pub fn evict_idle(&mut self, now: u64) -> (evicted: Option<PooledConnection<C>>)
        requires
            old(self).wf(),
        ensures
            final(self).wf(),
            final(self).config() == old(self).config(),
            final(self).live_ids() == old(self).live_ids(),
            final(self).opening() == old(self).opening(),
            final(self).waiting() == old(self).waiting(),
            final(self).ids_issued() == old(self).ids_issued(),
            final(self).tickets_issued() == old(self).tickets_issued(),
            match evicted {
                Some(conn) => exists|k: int|
                    {
                        &&& 0 <= k < old(self).idle_ids().len()
                        &&& expired(old(self).config().idle_timeout, old(self).idle_since()[k], now)
                        &&& forall|j: int|
                            0 <= j < k ==> !expired(
                                old(self).config().idle_timeout,
                                #[trigger] old(self).idle_since()[j],
                                now,
                            )
                        &&& conn.spec_id() == old(self).idle_ids()[k]
                        &&& conn.connection() is Some
                        &&& final(self).idle_ids() == #[trigger] old(self).idle_ids().remove(k)
                        &&& final(self).idle_since() == old(self).idle_since().remove(k)
                    },
                None => {
                    &&& forall|j: int|
                        0 <= j < old(self).idle_since().len() ==> !expired(
                            old(self).config().idle_timeout,
                            #[trigger] old(self).idle_since()[j],
                            now,
                        )
                    &&& final(self).idle_ids() == old(self).idle_ids()
                    &&& final(self).idle_since() == old(self).idle_since()
                },
            },
    {
        let limit = match self.config.idle_timeout {
            Some(limit) => limit,
            None => {
                return None;
            },
        };
        let mut k: usize = 0;
        while k < self.idle_since.len()
            invariant
                *self == *old(self),
                self.wf(),
                self.config.idle_timeout == Some(limit),
                k <= self.idle_since@.len(),
                forall|j: int|
                    0 <= j < k ==> !expired(
                        self.config.idle_timeout,
                        #[trigger] self.idle_since@[j],
                        now,
                    ),
            decreases self.idle_since@.len() - k,
        {
            let since = self.idle_since[k];
            if now >= since && now - since >= limit {
                let conn = self.idle.remove(k);
                self.idle_since.remove(k);
                proof {
                    assert(self.idle_ids() =~= old(self).idle_ids().remove(k as int));
                    assert(conn.id == old(self).idle_ids()[k as int]);
                }
                return Some(conn);
            }
            k += 1;
        }
        None
    }

    /// How many connections lie idle.
    pub fn idle_count(&self) -> (count: usize)
        ensures
            count == self.idle_ids().len(),
    {
        self.idle.len()
    }

    /// How many connections are leased out.
    pub fn live_count(&self) -> (count: usize)
        ensures
            count == self.live_ids().len(),
    {
        self.live.len()
    }

    /// How many connections are being opened.
    pub fn opening_count(&self) -> (count: usize)
        ensures
            count == self.opening(),
    {
        self.opening
    }

    /// How many callers wait.
    pub fn waiting_count(&self) -> (count: usize)
        ensures
            count == self.waiting().len(),
    {
        self.waiters.len()
    }

    /// The configuration the pool was made with.
    pub fn configuration(&self) -> (config: PoolConfig)
        ensures
            config == self.config(),
    {
        self.config
    }

    /// No two leases are out for one connection, no leased connection lies
    /// idle at the same time, and the pool keeps within its size.
    pub proof fn lemma_leases_distinct(&self)
        requires
            self.wf(),
        ensures
            self.live_ids().no_duplicates(),
            self.idle_ids().no_duplicates(),
            forall|id: u64| !(self.idle_ids().contains(id) && self.live_ids().contains(id)),
            self.size() <= self.config().max_size,
            self.waiting().no_duplicates(),
            self.idle_since().len() == self.idle_ids().len(),
    {
    }
}

} // verus!
