//! What a checked-out connection does: the statements of a transaction, the
//! flags that follow them, and what becomes of the connection when its
//! owner lets go of it. The host runs the statements; every decision before
//! and after a statement is made here.

use vstd::prelude::*;
use crate::bridge::BlockingBridge;
use crate::error::Error;
use crate::pool::PooledConnection;
use crate::stream::QueryStream;

verus! {

/// The type of transaction to begin.
#[derive(Copy, Clone, Debug, PartialEq, Eq, Structural)]
pub enum TransactionType {
    Deferred,
    Immediate,
    Exclusive,
}

/// The statement that ends a transaction and keeps its writes.
pub const COMMIT_STATEMENT: &'static str = "COMMIT;";

/// The statement that ends a transaction and undoes its writes.
pub const ROLLBACK_STATEMENT: &'static str = "ROLLBACK;";

/// The statement that moves the write-ahead log into the main store.
pub const CHECKPOINT_STATEMENT: &'static str = "PRAGMA wal_checkpoint(RESTART);";

/// The statement that attaches the transient store to a new connection.
pub const ATTACH_STATEMENT: &'static str = "ATTACH DATABASE ? AS transient;";

/// The query that probes whether a connection still answers.
pub const VALIDATION_QUERY: &'static str = "SELECT 1";

/// How many prepared statements a new connection keeps.
pub const STATEMENT_CACHE_CAPACITY: usize = 64;

/// The text of the statement that begins a transaction of type `t`.
pub open spec fn begin_statement(t: TransactionType) -> Seq<char> {
    match t {
        TransactionType::Exclusive => "BEGIN EXCLUSIVE TRANSACTION;"@,
        TransactionType::Immediate => "BEGIN IMMEDIATE TRANSACTION;"@,
        TransactionType::Deferred => "BEGIN DEFERRED TRANSACTION;"@,
    }
}

impl TransactionType {
    /// The statement that begins a transaction of this type.
    pub fn begin_sql(self) -> (sql: &'static str)
        ensures
            sql@ == begin_statement(self),
    {
        match self {
            TransactionType::Exclusive => "BEGIN EXCLUSIVE TRANSACTION;",
            TransactionType::Immediate => "BEGIN IMMEDIATE TRANSACTION;",
            TransactionType::Deferred => "BEGIN DEFERRED TRANSACTION;",
        }
    }
}

/// Where a connection stands in the life of a transaction.
#[derive(Copy, Clone, Debug, PartialEq, Eq, Structural)]
pub enum Phase {
    /// No transaction is open and no statement that would open one is out.
    Idle,
    /// A BEGIN was handed out and has not been reported as done.
    Beginning,
    /// A BEGIN has been executed; no COMMIT or ROLLBACK has completed.
    Active,
    /// A COMMIT or ROLLBACK was handed out and has not been reported as done.
    Closing,
}

/// What the host must do with a connection whose owner let go of it.
pub enum Release<C> {
    /// No transaction is open: the lease holds the connection again, or is
    /// empty where the connection was lost, and goes back to the pool.
    Return { lease: PooledConnection<C> },
    /// A transaction is open: the host runs `sql`, the ROLLBACK, on
    /// `connection` on a worker, reports with `rollback_in_drop_finished`
    /// and only then gives the lease back to the pool.
    Rollback { lease: PooledConnection<C>, connection: C, sql: &'static str },
    /// A BEGIN, COMMIT or ROLLBACK is in flight or failed: the connection, if
    /// it is here, is closed, and the empty lease goes back to the pool,
    /// which discards it.
    Discard { lease: PooledConnection<C>, dropped: Option<C> },
}

/// A connection with the lease it came from and the flags of its
/// transaction.
pub struct DbOpsData<C> {
    conn_handle: PooledConnection<C>,
    conn: BlockingBridge<C>,
    is_begin_transaction: bool,
    is_begin_commit: bool,
    is_in_transaction: bool,
}

impl<C> DbOpsData<C> {
    /// Whether a BEGIN was handed out and not reported as executed.
    pub closed spec fn beginning(&self) -> bool {
        self.is_begin_transaction
    }

    /// Whether a COMMIT or ROLLBACK was handed out and not reported as
    /// executed.
    pub closed spec fn closing(&self) -> bool {
        self.is_begin_commit
    }

    /// Whether a BEGIN has been executed and no COMMIT or ROLLBACK has
    /// completed since.
    pub closed spec fn in_transaction(&self) -> bool {
        self.is_in_transaction
    }

    /// The connection, unless it was moved out and never came back.
    pub closed spec fn connection(&self) -> Option<C> {
        self.conn@
    }

    /// The id of the lease that the connection came from.
    pub closed spec fn lease_id(&self) -> u64 {
        self.conn_handle.spec_id()
    }

    /// Where the connection stands in the life of a transaction.
    pub open spec fn phase(&self) -> Phase {
        if self.closing() {
            Phase::Closing
        } else if self.beginning() {
            Phase::Beginning
        } else if self.in_transaction() {
            Phase::Active
        } else {
            Phase::Idle
        }
    }

    /// What holds between calls: the lease is empty while the connection is
    /// held here, a BEGIN is only out while no transaction is open, and a
    /// COMMIT or ROLLBACK only while one is.
    pub closed spec fn wf(&self) -> bool {
        &&& self.conn_handle.connection() is None
        &&& self.is_begin_transaction ==> !self.is_in_transaction
        &&& self.is_begin_commit ==> self.is_in_transaction
    }

    /// Takes the connection out of a lease that the pool handed out.
    pub fn new(conn_handle: PooledConnection<C>) -> (data: Self)
        ensures
            data.wf(),
            data.phase() == Phase::Idle,
            data.connection() == conn_handle.connection(),
            data.lease_id() == conn_handle.spec_id(),
    {
        let mut conn_handle = conn_handle;
        let conn = conn_handle.take();
        DbOpsData {
            conn_handle,
            conn,
            is_begin_transaction: false,
            is_begin_commit: false,
            is_in_transaction: false,
        }
    }

    /// The connection to run a statement on, or `PoisonedResource` where it
    /// is gone.
    pub fn get(&self) -> (r: Result<&C, Error>)
        ensures
            match self.connection() {
                Some(c) => r == Ok::<&C, Error>(&c),
                None => r == Err::<&C, Error>(Error::PoisonedResource),
            },
    {
        self.conn.get()
    }

    /// Where the connection stands in the life of a transaction.
    pub fn current_phase(&self) -> (phase: Phase)
        ensures
            phase == self.phase(),
    {
        if self.is_begin_commit {
            Phase::Closing
        } else if self.is_begin_transaction {
            Phase::Beginning
        } else if self.is_in_transaction {
            Phase::Active
        } else {
            Phase::Idle
        }
    }

    /// Whether a transaction is open.
    pub fn is_in_transaction(&self) -> (open: bool)
        ensures
            open == self.in_transaction(),
    {
        self.is_in_transaction
    }

    /// Marks that a BEGIN is about to run and gives the statement for the
    /// host to execute. Without a connection the mark is set all the same
    /// and the answer is `PoisonedResource`.
    pub fn begin_transaction(&mut self, t: TransactionType) -> (r: Result<&'static str, Error>)
        requires
            old(self).wf(),
            !old(self).in_transaction(),
        ensures
            final(self).wf(),
            final(self).beginning(),
            !final(self).in_transaction(),
            !final(self).closing(),
            final(self).connection() == old(self).connection(),
            final(self).lease_id() == old(self).lease_id(),
            match r {
                Ok(sql) => old(self).connection() is Some && sql@ == begin_statement(t),
                Err(e) => old(self).connection() is None && e == Error::PoisonedResource,
            },
    {
        let sql = t.begin_sql();
        self.is_begin_transaction = true;
        if self.conn.is_poisoned() {
            Err(Error::PoisonedResource)
        } else {
            Ok(sql)
        }
    }

    /// Takes in how the BEGIN went. After a success a transaction is open.
    /// After a failure nothing changes: the mark of the BEGIN stays, and a
    /// connection that is let go in that state is discarded.
    pub fn begin_finished(&mut self, outcome: Result<(), Error>) -> (r: Result<(), Error>)
        requires
            old(self).wf(),
            old(self).beginning(),
        ensures
            final(self).wf(),
            r == outcome,
            final(self).connection() == old(self).connection(),
            final(self).lease_id() == old(self).lease_id(),
            final(self).closing() == old(self).closing(),
            match outcome {
                Ok(_) => final(self).in_transaction() && !final(self).beginning(),
                Err(_) => !final(self).in_transaction() && final(self).beginning(),
            },
    {
        if outcome.is_ok() {
            self.is_in_transaction = true;
            self.is_begin_transaction = false;
        }
        outcome
    }

    /// Marks that the transaction is about to end and gives the statement
    /// that ends it.
    fn close_transaction(&mut self, sql: &'static str) -> (r: Result<&'static str, Error>)
        requires
            old(self).wf(),
            old(self).in_transaction(),
        ensures
            final(self).wf(),
            final(self).closing(),
            final(self).in_transaction(),
            !final(self).beginning(),
            final(self).connection() == old(self).connection(),
            final(self).lease_id() == old(self).lease_id(),
            match r {
                Ok(statement) => old(self).connection() is Some && statement == sql,
                Err(e) => old(self).connection() is None && e == Error::PoisonedResource,
            },
    {
        self.is_begin_commit = true;
        if self.conn.is_poisoned() {
            Err(Error::PoisonedResource)
        } else {
            Ok(sql)
        }
    }

    /// Marks that a COMMIT is about to run and gives the statement for the
    /// host to execute. Without a connection the mark is set all the same
    /// and the answer is `PoisonedResource`.
    pub fn commit_transaction(&mut self) -> (r: Result<&'static str, Error>)
        requires
            old(self).wf(),
            old(self).in_transaction(),
        ensures
            final(self).wf(),
            final(self).closing(),
            final(self).in_transaction(),
            !final(self).beginning(),
            final(self).connection() == old(self).connection(),
            final(self).lease_id() == old(self).lease_id(),
            match r {
                Ok(sql) => old(self).connection() is Some && sql@ == COMMIT_STATEMENT@,
                Err(e) => old(self).connection() is None && e == Error::PoisonedResource,
            },
    {
        self.close_transaction(COMMIT_STATEMENT)
    }

    /// Marks that a ROLLBACK is about to run and gives the statement for the
    /// host to execute. Without a connection the mark is set all the same
    /// and the answer is `PoisonedResource`.
    pub fn rollback_transaction(&mut self) -> (r: Result<&'static str, Error>)
        requires
            old(self).wf(),
            old(self).in_transaction(),
        ensures
            final(self).wf(),
            final(self).closing(),
            final(self).in_transaction(),
            !final(self).beginning(),
            final(self).connection() == old(self).connection(),
            final(self).lease_id() == old(self).lease_id(),
            match r {
                Ok(sql) => old(self).connection() is Some && sql@ == ROLLBACK_STATEMENT@,
                Err(e) => old(self).connection() is None && e == Error::PoisonedResource,
            },
    {
        self.close_transaction(ROLLBACK_STATEMENT)
    }

    /// Takes in how the COMMIT or ROLLBACK went. After a success no
    /// transaction is open. After a failure nothing changes: the mark of the
    /// statement stays, and a connection that is let go in that state is
    /// discarded.
    pub fn close_finished(&mut self, outcome: Result<(), Error>) -> (r: Result<(), Error>)
        requires
            old(self).wf(),
            old(self).closing(),
        ensures
            final(self).wf(),
            r == outcome,
            final(self).connection() == old(self).connection(),
            final(self).lease_id() == old(self).lease_id(),
            final(self).beginning() == old(self).beginning(),
            match outcome {
                Ok(_) => !final(self).in_transaction() && !final(self).closing(),
                Err(_) => final(self).in_transaction() && final(self).closing(),
            },
    {
        if outcome.is_ok() {
            self.is_in_transaction = false;
            self.is_begin_commit = false;
        }
        outcome
    }

    /// Starts a streaming query: the connection moves into the stream and
    /// stays there until `end_stream` brings it back. Started without a
    /// connection, the stream reports `PoisonedResource` to whoever asks it
    /// for one.
    pub fn do_query_stream(&mut self) -> (stream: QueryStream<C>)
        requires
            old(self).wf(),
        ensures
            final(self).wf(),
            stream.connection() == old(self).connection(),
            final(self).connection() is None,
            final(self).lease_id() == old(self).lease_id(),
            final(self).beginning() == old(self).beginning(),
            final(self).closing() == old(self).closing(),
            final(self).in_transaction() == old(self).in_transaction(),
    {
        QueryStream::new(self.conn.take())
    }

    /// Ends a streaming query, whether its reader came to the end or gave up
    /// early: the connection moves back and serves ordinary statements
    /// again. The stream is used up, so this happens once.
    pub fn end_stream(&mut self, stream: QueryStream<C>)
        requires
            old(self).wf(),
        ensures
            final(self).wf(),
            final(self).connection() == stream.connection(),
            final(self).lease_id() == old(self).lease_id(),
            final(self).beginning() == old(self).beginning(),
            final(self).closing() == old(self).closing(),
            final(self).in_transaction() == old(self).in_transaction(),
    {
        self.conn = stream.into_connection();
    }

    /// Decides what becomes of the connection when its owner lets go of it.
    /// With a statement of the transaction's own out or failed the
    /// connection is discarded. With a transaction open it is rolled back
    /// before the lease goes home. Otherwise the connection goes back into
    /// its lease.
    pub fn release(self) -> (release: Release<C>)
        requires
            self.wf(),
        ensures
            match release {
                Release::Return { lease } => {
                    &&& self.phase() == Phase::Idle
                    &&& lease.connection() == self.connection()
                    &&& lease.spec_id() == self.lease_id()
                },
                Release::Rollback { lease, connection, sql } => {
                    &&& self.phase() == Phase::Active
                    &&& self.connection() == Some(connection)
                    &&& sql@ == ROLLBACK_STATEMENT@
                    &&& lease.connection() is None
                    &&& lease.spec_id() == self.lease_id()
                },
                Release::Discard { lease, dropped } => {
                    &&& self.phase() != Phase::Idle
                    &&& self.phase() == Phase::Active ==> self.connection() is None
                    &&& dropped == self.connection()
                    &&& lease.connection() is None
                    &&& lease.spec_id() == self.lease_id()
                },
            },
    {
        let DbOpsData {
            conn_handle,
            conn,
            is_begin_transaction,
            is_begin_commit,
            is_in_transaction,
        } = self;
        let mut lease = conn_handle;
        if is_begin_commit || is_begin_transaction {
            Release::Discard { lease, dropped: conn.into_inner() }
        } else if is_in_transaction {
            match conn.into_inner() {
                Some(connection) => Release::Rollback {
                    lease,
                    connection,
                    sql: ROLLBACK_STATEMENT,
                },
                None => Release::Discard { lease, dropped: None },
            }
        } else {
            lease.put(conn);
            Release::Return { lease }
        }
    }
}

/// Takes in how the ROLLBACK of a connection that was let go went. After a
/// success the lease holds the connection again and may be reused. After a
/// failure the connection is dropped, the lease stays empty, and the failure
/// is the second result, for the host to report: nobody waits for it.
pub fn rollback_in_drop_finished<C>(
    lease: PooledConnection<C>,
    connection: C,
    outcome: Result<(), Error>,
) -> (r: (PooledConnection<C>, Option<Error>))
    ensures
        r.0.spec_id() == lease.spec_id(),
        match outcome {
            Ok(_) => r.0.connection() == Some(connection) && r.1 is None,
            Err(e) => r.0.connection() == lease.connection() && r.1 == Some(e),
        },
{
    let mut lease = lease;
    match outcome {
        Ok(()) => {
            lease.put(BlockingBridge::new(connection));
            (lease, None)
        },
        Err(e) => (lease, Some(e)),
    }
}

/// A piece of work for a blocking worker: the connection data, moved out of
/// its owner, and the statement to run on its connection. The worker hands
/// both back with the statement's outcome.
pub struct Dispatch<C> {
    pub data: DbOpsData<C>,
    pub sql: &'static str,
}

/// The database operations of a connection or a transaction: the connection
/// data behind a bridge, so that it can move to a worker and back.
pub struct DbOps<C>(BlockingBridge<DbOpsData<C>>);

impl<C> View for DbOps<C> {
    type V = Option<DbOpsData<C>>;

    closed spec fn view(&self) -> Option<DbOpsData<C>> {
        self.0@
    }
}

impl<C> DbOps<C> {
    /// Operations on `data`.
    pub fn new(data: DbOpsData<C>) -> (ops: Self)
        ensures
            ops@ == Some(data),
    {
        DbOps(BlockingBridge::new(data))
    }

    /// Whether the connection data is out, or lost.
    pub fn is_poisoned(&self) -> (poisoned: bool)
        ensures
            poisoned == (self@ is None),
    {
        self.0.is_poisoned()
    }

    /// Moves the connection data out for one operation on a worker.
    pub fn start_blocking(&mut self) -> (r: Result<DbOpsData<C>, Error>)
        ensures
            final(self)@ is None,
            match old(self)@ {
                Some(data) => r == Ok::<DbOpsData<C>, Error>(data),
                None => r == Err::<DbOpsData<C>, Error>(Error::PoisonedResource),
            },
    {
        self.0.start_blocking()
    }

    /// Puts back the connection data that a worker has finished with.
    pub fn finish_blocking(&mut self, data: DbOpsData<C>)
        ensures
            final(self)@ == Some(data),
    {
        self.0.finish_blocking(data)
    }

    /// Decides what becomes of the connection when the operations are let
    /// go of; nothing is left to decide where the connection data is out.
    pub fn release(self) -> (release: Option<Release<C>>)
        requires
            self@ matches Some(data) ==> data.wf(),
        ensures
            match self@ {
                Some(data) => {
                    &&& release matches Some(r)
                    &&& released(data, r)
                },
                None => release is None,
            },
    {
        match self.0.into_inner() {
            Some(data) => Some(data.release()),
            None => None,
        }
    }
}

/// Whether `release` is what letting go of `data` comes to.
pub open spec fn released<C>(data: DbOpsData<C>, release: Release<C>) -> bool {
    match release {
        Release::Return { lease } => {
            &&& data.phase() == Phase::Idle
            &&& lease.connection() == data.connection()
            &&& lease.spec_id() == data.lease_id()
        },
        Release::Rollback { lease, connection, sql } => {
            &&& data.phase() == Phase::Active
            &&& data.connection() == Some(connection)
            &&& sql@ == ROLLBACK_STATEMENT@
            &&& lease.connection() is None
            &&& lease.spec_id() == data.lease_id()
        },
        Release::Discard { lease, dropped } => {
            &&& data.phase() != Phase::Idle
            &&& data.phase() == Phase::Active ==> data.connection() is None
            &&& dropped == data.connection()
            &&& lease.connection() is None
            &&& lease.spec_id() == data.lease_id()
        },
    }
}

/// A transaction that is open on a connection that is still there is rolled
/// back when the connection is let go of: the connection does not go back
/// into its lease until the ROLLBACK has run.
pub proof fn lemma_open_transaction_is_rolled_back<C>(data: DbOpsData<C>, release: Release<C>)
    requires
        released(data, release),
        data.phase() == Phase::Active,
        data.connection() is Some,
    ensures
        release matches Release::Rollback { lease, connection, sql } && lease.connection() is None
            && data.connection() == Some(connection) && sql@ == ROLLBACK_STATEMENT@,
{
}

/// While a BEGIN, COMMIT or ROLLBACK is out or in doubt, letting go of the
/// connection never puts it back into its lease: the lease goes home empty.
pub proof fn lemma_statement_in_flight_empties_the_lease<C>(data: DbOpsData<C>, release: Release<C>)
    requires
        released(data, release),
        data.phase() == Phase::Beginning || data.phase() == Phase::Closing,
    ensures
        release matches Release::Discard { lease, dropped } && lease.connection() is None,
{
}

/// A connection to the database.
pub struct DbConnection<C> {
    ops: DbOps<C>,
}

/// An open transaction. It holds the operations of the connection it was
/// begun on; the connection has none until the transaction gives them back.
pub struct DbTransaction<C> {
    ops: DbOps<C>,
}

impl<C> DbConnection<C> {
    /// The connection data, unless it is out on a worker, held by a
    /// transaction, or lost.
    pub closed spec fn data(&self) -> Option<DbOpsData<C>> {
        self.ops@
    }

    /// What holds between calls: connection data that is here is well formed
    /// and has no transaction open.
    pub open spec fn wf(&self) -> bool {
        self.data() matches Some(data) ==> data.wf() && !data.in_transaction()
    }

    /// A connection on a lease that the pool handed out.
    pub fn new(lease: PooledConnection<C>) -> (conn: Self)
        ensures
            conn.wf(),
            ({
                &&& conn.data() matches Some(data)
                &&& data.phase() == Phase::Idle
                &&& data.connection() == lease.connection()
                &&& data.lease_id() == lease.spec_id()
            }),
    {
        DbConnection { ops: DbOps::new(DbOpsData::new(lease)) }
    }

    /// Whether the connection data is out on a worker, or lost.
    pub fn is_poisoned(&self) -> (poisoned: bool)
        ensures
            poisoned == (self.data() is None),
    {
        self.ops.is_poisoned()
    }

    /// Moves the connection data out for one statement on a worker.
    pub fn start_blocking(&mut self) -> (r: Result<DbOpsData<C>, Error>)
        ensures
            final(self).data() is None,
            match old(self).data() {
                Some(data) => r == Ok::<DbOpsData<C>, Error>(data),
                None => r == Err::<DbOpsData<C>, Error>(Error::PoisonedResource),
            },
    {
        self.ops.start_blocking()
    }

    /// Puts back the connection data that a worker has finished with.
    pub fn finish_blocking(&mut self, data: DbOpsData<C>)
        ensures
            final(self).data() == Some(data),
    {
        self.ops.finish_blocking(data)
    }

    /// Prepares a checkpoint, which moves the write-ahead log into the main
    /// store: the connection data moves out, with the statement to run. The
    /// host puts the data back with `finish_blocking`.
    pub fn checkpoint(&mut self) -> (r: Result<Dispatch<C>, Error>)
        ensures
            final(self).data() is None,
            match old(self).data() {
                Some(data) => {
                    &&& r matches Ok(work)
                    &&& work.data == data
                    &&& work.sql@ == CHECKPOINT_STATEMENT@
                },
                None => {
                    &&& r matches Err(e)
                    &&& e == Error::PoisonedResource
                },
            },
    {
        match self.ops.start_blocking() {
            Ok(data) => Ok(Dispatch { data, sql: CHECKPOINT_STATEMENT }),
            Err(e) => Err(e),
        }
    }

    /// Prepares a deferred transaction; see `transaction_with_type`.
    pub fn transaction(&mut self) -> (r: Result<Dispatch<C>, Error>)
        requires
            old(self).wf(),
        ensures
            final(self).wf(),
            begun(*old(self), TransactionType::Deferred, *final(self), r),
    {
        self.transaction_with_type(TransactionType::Deferred)
    }

    /// Prepares a transaction of the given type. Connection data that is
    /// here and holds its connection moves out, marked as beginning, with
    /// the BEGIN to run; the host reports with `transaction_started`.
    /// Data without a connection is marked and stays, and the answer is
    /// `PoisonedResource`, as it is where the data is not here.
    pub fn transaction_with_type(&mut self, t: TransactionType) -> (r: Result<Dispatch<C>, Error>)
        requires
            old(self).wf(),
        ensures
            final(self).wf(),
            begun(*old(self), t, *final(self), r),
    {
        match self.ops.start_blocking() {
            Ok(data) => {
                let mut data = data;
                match data.begin_transaction(t) {
                    Ok(sql) => Ok(Dispatch { data, sql }),
                    Err(e) => {
                        self.ops.finish_blocking(data);
                        Err(e)
                    },
                }
            },
            Err(e) => Err(e),
        }
    }

    /// Takes in how the BEGIN went on the data that `transaction_with_type`
    /// moved out. After a success the transaction holds the data and the
    /// connection, unchanged, has none until the transaction ends. After a failure the
    /// data comes back to the connection, still marked as beginning.
    pub fn transaction_started(&mut self, data: DbOpsData<C>, outcome: Result<(), Error>) -> (r:
        Result<DbTransaction<C>, Error>)
        requires
            old(self).wf(),
            data.wf(),
            data.beginning(),
        ensures
            final(self).wf(),
            match outcome {
                Ok(_) => {
                    &&& final(self).data() == old(self).data()
                    &&& r matches Ok(tx)
                    &&& tx.wf()
                    &&& tx.data() matches Some(d)
                    &&& d.phase() == Phase::Active
                    &&& d.connection() == data.connection()
                    &&& d.lease_id() == data.lease_id()
                },
                Err(e) => {
                    &&& r matches Err(cause)
                    &&& cause == e
                    &&& final(self).data() matches Some(d)
                    &&& d.beginning()
                    &&& d.connection() == data.connection()
                    &&& d.lease_id() == data.lease_id()
                },
            },
    {
        let mut data = data;
        match data.begin_finished(outcome) {
            Ok(_) => Ok(DbTransaction { ops: DbOps::new(data) }),
            Err(e) => {
                self.ops.finish_blocking(data);
                Err(e)
            },
        }
    }

    /// Decides what becomes of the connection when it is let go of; nothing
    /// is left to decide where the connection data is not here.
    pub fn release(self) -> (release: Option<Release<C>>)
        requires
            self.wf(),
        ensures
            match self.data() {
                Some(data) => {
                    &&& release matches Some(r)
                    &&& released(data, r)
                },
                None => release is None,
            },
    {
        self.ops.release()
    }
}

impl<C> DbTransaction<C> {
    /// The connection data, unless it is out on a worker or lost.
    pub closed spec fn data(&self) -> Option<DbOpsData<C>> {
        self.ops@
    }

    /// What holds between calls: connection data that is here is well formed
    /// and has a transaction open.
    pub open spec fn wf(&self) -> bool {
        self.data() matches Some(data) ==> data.wf() && data.in_transaction()
    }

    /// Whether the connection data is out on a worker, or lost.
    pub fn is_poisoned(&self) -> (poisoned: bool)
        ensures
            poisoned == (self.data() is None),
    {
        self.ops.is_poisoned()
    }

    /// Moves the connection data out for one statement on a worker.
    pub fn start_blocking(&mut self) -> (r: Result<DbOpsData<C>, Error>)
        ensures
            final(self).data() is None,
            match old(self).data() {
                Some(data) => r == Ok::<DbOpsData<C>, Error>(data),
                None => r == Err::<DbOpsData<C>, Error>(Error::PoisonedResource),
            },
    {
        self.ops.start_blocking()
    }

    /// Puts back the connection data that a worker has finished with.
    pub fn finish_blocking(&mut self, data: DbOpsData<C>)
        ensures
            final(self).data() == Some(data),
    {
        self.ops.finish_blocking(data)
    }

    /// Prepares the end of the transaction by `sql`.
    fn close(&mut self, commit: bool) -> (r: Result<Dispatch<C>, Error>)
        requires
            old(self).wf(),
        ensures
            final(self).wf(),
            closing(*old(self), commit, *final(self), r),
    {
        match self.ops.start_blocking() {
            Ok(data) => {
                let mut data = data;
                let prepared = if commit {
                    data.commit_transaction()
                } else {
                    data.rollback_transaction()
                };
                match prepared {
                    Ok(sql) => Ok(Dispatch { data, sql }),
                    Err(e) => {
                        self.ops.finish_blocking(data);
                        Err(e)
                    },
                }
            },
            Err(e) => Err(e),
        }
    }

    /// Prepares the commit. Connection data that is here and holds its
    /// connection moves out, marked as closing, with the COMMIT to run; the
    /// host reports with `closed`. Data without a connection is marked and
    /// stays, and the answer is `PoisonedResource`, as it is where the data
    /// is not here.
    pub fn commit(&mut self) -> (r: Result<Dispatch<C>, Error>)
        requires
            old(self).wf(),
        ensures
            final(self).wf(),
            closing(*old(self), true, *final(self), r),
    {
        self.close(true)
    }

    /// Prepares the rollback, as `commit` prepares the commit.
    pub fn rollback(&mut self) -> (r: Result<Dispatch<C>, Error>)
        requires
            old(self).wf(),
        ensures
            final(self).wf(),
            closing(*old(self), false, *final(self), r),
    {
        self.close(false)
    }

    /// Takes in how the COMMIT or ROLLBACK went on the data that `commit` or
    /// `rollback` moved out, and uses up the transaction. After a success
    /// the data goes back to the connection that the transaction was begun
    /// on, which serves statements again. After a failure the failure is
    /// handed on and the connection is discarded: the second result says
    /// how.
    pub fn closed(
        self,
        parent: &mut DbConnection<C>,
        data: DbOpsData<C>,
        outcome: Result<(), Error>,
    ) -> (r: (Result<(), Error>, Option<Release<C>>))
        requires
            data.wf(),
            data.closing(),
        ensures
            r.0 == outcome,
            match outcome {
                Ok(_) => {
                    &&& r.1 is None
                    &&& final(parent).wf()
                    &&& final(parent).data() matches Some(d)
                    &&& d.phase() == Phase::Idle
                    &&& d.connection() == data.connection()
                    &&& d.lease_id() == data.lease_id()
                },
                Err(_) => {
                    &&& final(parent).data() == old(parent).data()
                    &&& r.1 matches Some(Release::Discard { lease, dropped })
                    &&& dropped == data.connection()
                    &&& lease.connection() is None
                    &&& lease.spec_id() == data.lease_id()
                },
            },
    {
        let mut data = data;
        let result = data.close_finished(outcome);
        if result.is_ok() {
            parent.finish_blocking(data);
            (result, None)
        } else {
            (result, Some(data.release()))
        }
    }

    /// Decides what becomes of the connection when the transaction is let
    /// go of without `closed`: a transaction that is open is rolled back
    /// before the lease goes home. Nothing is left to decide where the
    /// connection data is not here.
    pub fn release(self) -> (release: Option<Release<C>>)
        requires
            self.wf(),
        ensures
            match self.data() {
                Some(data) => {
                    &&& release matches Some(r)
                    &&& released(data, r)
                    &&& r is Rollback || r is Discard
                },
                None => release is None,
            },
    {
        self.ops.release()
    }
}

/// What preparing the end of the transaction `before` comes to, by COMMIT
/// where `commit` holds and by ROLLBACK where it does not.
pub open spec fn closing<C>(
    before: DbTransaction<C>,
    commit: bool,
    after: DbTransaction<C>,
    r: Result<Dispatch<C>, Error>,
) -> bool {
    match before.data() {
        None => {
            &&& after.data() is None
            &&& r matches Err(e)
            &&& e == Error::PoisonedResource
        },
        Some(data) => match r {
            Ok(work) => {
                &&& data.connection() is Some
                &&& after.data() is None
                &&& work.sql@ == if commit {
                    COMMIT_STATEMENT@
                } else {
                    ROLLBACK_STATEMENT@
                }
                &&& work.data.wf()
                &&& work.data.phase() == Phase::Closing
                &&& work.data.in_transaction()
                &&& work.data.connection() == data.connection()
                &&& work.data.lease_id() == data.lease_id()
            },
            Err(e) => {
                &&& e == Error::PoisonedResource
                &&& data.connection() is None
                &&& after.data() matches Some(marked)
                &&& marked.phase() == Phase::Closing
                &&& marked.connection() is None
                &&& marked.lease_id() == data.lease_id()
            },
        },
    }
}

/// What preparing a transaction of type `t` on `before` comes to.
pub open spec fn begun<C>(
    before: DbConnection<C>,
    t: TransactionType,
    after: DbConnection<C>,
    r: Result<Dispatch<C>, Error>,
) -> bool {
    match before.data() {
        None => {
            &&& after.data() is None
            &&& r matches Err(e)
            &&& e == Error::PoisonedResource
        },
        Some(data) => match r {
            Ok(work) => {
                &&& data.connection() is Some
                &&& after.data() is None
                &&& work.sql@ == begin_statement(t)
                &&& work.data.wf()
                &&& work.data.phase() == Phase::Beginning
                &&& work.data.connection() == data.connection()
                &&& work.data.lease_id() == data.lease_id()
            },
            Err(e) => {
                &&& e == Error::PoisonedResource
                &&& data.connection() is None
                &&& after.data() matches Some(marked)
                &&& marked.phase() == Phase::Beginning
                &&& marked.connection() is None
                &&& marked.lease_id() == data.lease_id()
            },
        },
    }
}

} // verus!
