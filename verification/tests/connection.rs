use sylphie_database::connection::{
    rollback_in_drop_finished, DbConnection, DbOpsData, DbTransaction, Phase, Release,
    TransactionType, ATTACH_STATEMENT, CHECKPOINT_STATEMENT, COMMIT_STATEMENT,
    ROLLBACK_STATEMENT, STATEMENT_CACHE_CAPACITY, VALIDATION_QUERY,
};
use sylphie_database::error::Error;
use sylphie_database::pool::{Checkout, Pool, PoolConfig, PooledConnection};

fn lease(name: &'static str) -> (Pool<&'static str>, PooledConnection<&'static str>) {
    let mut pool = Pool::new(PoolConfig { max_size: 2, idle_timeout: None, wait_timeout: None });
    assert!(matches!(pool.get(), Ok(Checkout::Connect)));
    let lease = pool.connected(Ok(name)).0.unwrap();
    (pool, lease)
}

fn failure() -> Error {
    Error::SqlError { code: 5, message: String::from("database is locked") }
}

fn begin(conn: &mut DbConnection<&'static str>, t: TransactionType) -> DbTransaction<&'static str> {
    let work = conn.transaction_with_type(t).unwrap();
    conn.transaction_started(work.data, Ok(())).unwrap()
}

#[test]
fn statements_of_the_three_transaction_types() {
    assert_eq!(TransactionType::Deferred.begin_sql(), "BEGIN DEFERRED TRANSACTION;");
    assert_eq!(TransactionType::Immediate.begin_sql(), "BEGIN IMMEDIATE TRANSACTION;");
    assert_eq!(TransactionType::Exclusive.begin_sql(), "BEGIN EXCLUSIVE TRANSACTION;");
    assert_eq!(COMMIT_STATEMENT, "COMMIT;");
    assert_eq!(ROLLBACK_STATEMENT, "ROLLBACK;");
    assert_eq!(CHECKPOINT_STATEMENT, "PRAGMA wal_checkpoint(RESTART);");
    assert_eq!(ATTACH_STATEMENT, "ATTACH DATABASE ? AS transient;");
    assert_eq!(VALIDATION_QUERY, "SELECT 1");
    assert_eq!(STATEMENT_CACHE_CAPACITY, 64);
}

#[test]
fn flags_follow_begin_and_commit() {
    let (_pool, lease) = lease("c");
    let mut data = DbOpsData::new(lease);
    assert_eq!(data.current_phase(), Phase::Idle);
    assert_eq!(data.get(), Ok(&"c"));
    assert_eq!(data.begin_transaction(TransactionType::Immediate), Ok("BEGIN IMMEDIATE TRANSACTION;"));
    assert_eq!(data.current_phase(), Phase::Beginning);
    assert!(!data.is_in_transaction());
    assert_eq!(data.begin_finished(Ok(())), Ok(()));
    assert_eq!(data.current_phase(), Phase::Active);
    assert!(data.is_in_transaction());
    assert_eq!(data.commit_transaction(), Ok("COMMIT;"));
    assert_eq!(data.current_phase(), Phase::Closing);
    assert!(data.is_in_transaction());
    assert_eq!(data.close_finished(Ok(())), Ok(()));
    assert_eq!(data.current_phase(), Phase::Idle);
    assert!(!data.is_in_transaction());
}

#[test]
fn rollback_ends_the_transaction() {
    let (_pool, lease) = lease("c");
    let mut data = DbOpsData::new(lease);
    data.begin_transaction(TransactionType::Deferred).unwrap();
    data.begin_finished(Ok(())).unwrap();
    assert_eq!(data.rollback_transaction(), Ok("ROLLBACK;"));
    assert_eq!(data.close_finished(Ok(())), Ok(()));
    assert_eq!(data.current_phase(), Phase::Idle);
}

#[test]
fn failed_begin_leaves_its_mark() {
    let (mut pool, lease) = lease("c");
    let mut data = DbOpsData::new(lease);
    data.begin_transaction(TransactionType::Exclusive).unwrap();
    assert_eq!(data.begin_finished(Err(failure())), Err(failure()));
    assert_eq!(data.current_phase(), Phase::Beginning);
    assert!(!data.is_in_transaction());
    match data.release() {
        Release::Discard { lease, dropped } => {
            assert_eq!(dropped, Some("c"));
            assert!(lease.has_broken());
            pool.release(lease, 0);
        }
        _ => panic!("a connection with a BEGIN in doubt is discarded"),
    }
    assert_eq!(pool.idle_count(), 0);
    assert_eq!(pool.live_count(), 0);
}

#[test]
fn failed_commit_leaves_its_mark() {
    let (_pool, lease) = lease("c");
    let mut data = DbOpsData::new(lease);
    data.begin_transaction(TransactionType::Deferred).unwrap();
    data.begin_finished(Ok(())).unwrap();
    data.commit_transaction().unwrap();
    assert_eq!(data.close_finished(Err(failure())), Err(failure()));
    assert_eq!(data.current_phase(), Phase::Closing);
    assert!(data.is_in_transaction());
    assert!(matches!(data.release(), Release::Discard { .. }));
}

#[test]
fn idle_connection_goes_back_to_the_pool() {
    let (mut pool, lease) = lease("c");
    let id = lease.id();
    let data = DbOpsData::new(lease);
    match data.release() {
        Release::Return { lease } => {
            assert_eq!(lease.id(), id);
            assert!(!lease.has_broken());
            pool.release(lease, 0);
        }
        _ => panic!("an idle connection is handed back"),
    }
    assert_eq!(pool.idle_count(), 1);
}

#[test]
fn dropped_transaction_is_rolled_back_before_the_lease_goes_home() {
    let (mut pool, lease) = lease("c");
    let mut conn = DbConnection::new(lease);
    let tx = begin(&mut conn, TransactionType::Exclusive);
    assert!(conn.is_poisoned());
    // the transaction is let go of without commit or rollback
    let (lease, connection) = match tx.release() {
        Some(Release::Rollback { lease, connection, sql }) => {
            assert_eq!(sql, "ROLLBACK;");
            (lease, connection)
        }
        _ => panic!("an open transaction is rolled back"),
    };
    assert_eq!(connection, "c");
    // until the rollback has run the lease is of no use to the pool
    assert!(lease.has_broken());
    let (lease, report) = rollback_in_drop_finished(lease, connection, Ok(()));
    assert_eq!(report, None);
    assert!(!lease.has_broken());
    pool.release(lease, 0);
    assert_eq!(pool.idle_count(), 1);
    // the connection that began the transaction has nothing left to release
    assert!(conn.release().is_none());
}

#[test]
fn failed_rollback_in_drop_is_reported_and_the_connection_discarded() {
    let (mut pool, lease) = lease("c");
    let mut conn = DbConnection::new(lease);
    let tx = begin(&mut conn, TransactionType::Deferred);
    let (lease, connection) = match tx.release() {
        Some(Release::Rollback { lease, connection, .. }) => (lease, connection),
        _ => panic!(),
    };
    let (lease, report) = rollback_in_drop_finished(lease, connection, Err(failure()));
    assert_eq!(report, Some(failure()));
    assert!(lease.has_broken());
    pool.release(lease, 0);
    assert_eq!(pool.idle_count(), 0);
}

#[test]
fn commit_gives_the_connection_back_to_its_parent() {
    let (_pool, lease) = lease("c");
    let mut conn = DbConnection::new(lease);
    let work = conn.transaction().unwrap();
    assert_eq!(work.sql, "BEGIN DEFERRED TRANSACTION;");
    assert_eq!(work.data.current_phase(), Phase::Beginning);
    let mut tx = conn.transaction_started(work.data, Ok(())).unwrap();
    assert!(conn.is_poisoned());
    assert!(matches!(conn.transaction(), Err(Error::PoisonedResource)));
    // a statement inside the transaction
    let data = tx.start_blocking().unwrap();
    assert!(tx.is_poisoned());
    assert_eq!(data.get(), Ok(&"c"));
    tx.finish_blocking(data);
    let work = tx.commit().unwrap();
    assert_eq!(work.sql, "COMMIT;");
    let (result, release) = tx.closed(&mut conn, work.data, Ok(()));
    assert_eq!(result, Ok(()));
    assert!(release.is_none());
    assert!(!conn.is_poisoned());
    // the connection serves the next transaction
    let tx = begin(&mut conn, TransactionType::Immediate);
    assert!(!tx.is_poisoned());
}

#[test]
fn explicit_rollback_gives_the_connection_back_too() {
    let (_pool, lease) = lease("c");
    let mut conn = DbConnection::new(lease);
    let mut tx = begin(&mut conn, TransactionType::Deferred);
    let work = tx.rollback().unwrap();
    assert_eq!(work.sql, "ROLLBACK;");
    let (result, release) = tx.closed(&mut conn, work.data, Ok(()));
    assert_eq!(result, Ok(()));
    assert!(release.is_none());
    let data = conn.start_blocking().unwrap();
    assert_eq!(data.current_phase(), Phase::Idle);
}

#[test]
fn failed_commit_discards_the_connection() {
    let (_pool, lease) = lease("c");
    let mut conn = DbConnection::new(lease);
    let mut tx = begin(&mut conn, TransactionType::Deferred);
    let work = tx.commit().unwrap();
    let (result, release) = tx.closed(&mut conn, work.data, Err(failure()));
    assert_eq!(result, Err(failure()));
    assert!(matches!(release, Some(Release::Discard { dropped: Some("c"), .. })));
    assert!(conn.is_poisoned());
}

#[test]
fn failed_begin_hands_the_failure_on() {
    let (_pool, lease) = lease("c");
    let mut conn = DbConnection::new(lease);
    let work = conn.transaction_with_type(TransactionType::Exclusive).unwrap();
    assert!(conn.is_poisoned());
    let result = conn.transaction_started(work.data, Err(failure()));
    assert_eq!(result.err(), Some(failure()));
    assert!(!conn.is_poisoned());
    assert!(matches!(conn.release(), Some(Release::Discard { .. })));
}

#[test]
fn checkpoint_statement() {
    let (_pool, lease) = lease("c");
    let mut conn = DbConnection::new(lease);
    let work = conn.checkpoint().unwrap();
    assert_eq!(work.sql, "PRAGMA wal_checkpoint(RESTART);");
    assert!(conn.is_poisoned());
    assert!(matches!(conn.checkpoint(), Err(Error::PoisonedResource)));
    conn.finish_blocking(work.data);
    assert!(conn.checkpoint().is_ok());
}

#[test]
fn connection_without_its_value_is_poisoned() {
    let (_pool, mut lease) = lease("c");
    let _lost = lease.take();
    let mut data = DbOpsData::new(lease);
    assert_eq!(data.get(), Err(Error::PoisonedResource));
    assert_eq!(data.begin_transaction(TransactionType::Deferred), Err(Error::PoisonedResource));
    assert_eq!(data.current_phase(), Phase::Beginning);
}

#[test]
fn failures_of_the_driver_become_sql_errors() {
    assert_eq!(
        Error::from_driver(Some(2067), String::from("UNIQUE constraint failed")),
        Error::SqlError { code: 2067, message: String::from("UNIQUE constraint failed") }
    );
    assert_eq!(
        Error::from_driver(None, String::from("invalid parameter count")),
        Error::SqlError { code: -1, message: String::from("invalid parameter count") }
    );
}
