use rusqlite::{Connection, OpenFlags};
use sylphie_database::connection::{
    rollback_in_drop_finished, DbConnection, DbTransaction, Release, TransactionType,
    VALIDATION_QUERY,
};
use sylphie_database::error::Error;
use sylphie_database::pool::{Checkout, Pool, PoolConfig, PooledConnection};
use sylphie_database::serializable::{decode, encode};
use sylphie_database::stream::RowCursor;

fn sql_error(e: rusqlite::Error) -> Error {
    match e {
        rusqlite::Error::SqliteFailure(cause, message) => {
            Error::from_driver(Some(cause.extended_code), message.unwrap_or_default())
        }
        other => Error::from_driver(None, other.to_string()),
    }
}

fn run(conn: &Connection, sql: &str) -> Result<(), Error> {
    conn.execute_batch(sql).map_err(sql_error)
}

fn count(conn: &Connection) -> i64 {
    conn.query_row("SELECT COUNT(*) FROM items", [], |row| row.get(0)).unwrap()
}

fn open_store(name: &str) -> Result<Connection, Error> {
    let uri = format!("file:{}?mode=memory&cache=shared", name);
    Connection::open_with_flags(
        uri,
        OpenFlags::SQLITE_OPEN_READ_WRITE
            | OpenFlags::SQLITE_OPEN_CREATE
            | OpenFlags::SQLITE_OPEN_URI,
    )
    .map_err(|_| Error::ConnectionError)
}

/// Checks a connection out of the pool as a host does: probes idle
/// connections, opens new ones.
fn checkout(pool: &mut Pool<Connection>, store: &str) -> PooledConnection<Connection> {
    loop {
        match pool.get().unwrap() {
            Checkout::Validate(lease) => {
                let mut lease = lease;
                let bridge = lease.take();
                let valid = match bridge.get() {
                    Ok(conn) => conn.query_row(VALIDATION_QUERY, [], |_| Ok(())).is_ok(),
                    Err(_) => false,
                };
                lease.put(bridge);
                if let Some(lease) = pool.validated(lease, valid) {
                    return lease;
                }
            }
            Checkout::Connect => return pool.connected(open_store(store)).0.unwrap(),
            Checkout::Wait(_) => panic!("the pool is full"),
        }
    }
}

fn begin(conn: &mut DbConnection<Connection>, t: TransactionType) -> DbTransaction<Connection> {
    let work = conn.transaction_with_type(t).unwrap();
    let outcome = run(work.data.get().unwrap(), work.sql);
    conn.transaction_started(work.data, outcome).unwrap()
}

fn execute(tx: &mut DbTransaction<Connection>, sql: &str) -> Result<(), Error> {
    let data = tx.start_blocking()?;
    let outcome = match data.get() {
        Ok(conn) => run(conn, sql),
        Err(e) => Err(e),
    };
    tx.finish_blocking(data);
    outcome
}

/// Lets go of a transaction as a host does when the value is dropped.
fn drop_transaction(pool: &mut Pool<Connection>, tx: DbTransaction<Connection>) -> Option<Error> {
    match tx.release() {
        Some(Release::Rollback { lease, connection, sql }) => {
            let outcome = run(&connection, sql);
            let (lease, report) = rollback_in_drop_finished(lease, connection, outcome);
            pool.release(lease, 0);
            report
        }
        Some(Release::Return { lease }) | Some(Release::Discard { lease, .. }) => {
            pool.release(lease, 0);
            None
        }
        None => None,
    }
}

fn pool_of(max_size: usize) -> Pool<Connection> {
    Pool::new(PoolConfig { max_size, idle_timeout: Some(300), wait_timeout: None })
}

#[test]
fn dropped_exclusive_transaction_leaves_the_row_count_unchanged() {
    let store = "dropped_exclusive";
    let keeper = open_store(store).unwrap();
    run(&keeper, "CREATE TABLE items (id INTEGER PRIMARY KEY, name TEXT); INSERT INTO items (name) VALUES ('a');").unwrap();
    let before = count(&keeper);
    assert_eq!(before, 1);

    let mut pool = pool_of(2);
    let mut conn = DbConnection::new(checkout(&mut pool, store));
    let mut tx = begin(&mut conn, TransactionType::Exclusive);
    execute(&mut tx, "INSERT INTO items (name) VALUES ('b')").unwrap();
    assert_eq!(drop_transaction(&mut pool, tx), None);
    assert_eq!(pool.idle_count(), 1);

    let lease = checkout(&mut pool, store);
    let mut lease = lease;
    let bridge = lease.take();
    assert_eq!(count(bridge.get().unwrap()), before);
    assert_eq!(count(&keeper), before);
}

#[test]
fn any_writes_of_a_dropped_transaction_are_undone() {
    let store = "dropped_writes";
    let keeper = open_store(store).unwrap();
    run(&keeper, "CREATE TABLE items (id INTEGER PRIMARY KEY, name TEXT); INSERT INTO items (name) VALUES ('a'), ('b'), ('c');").unwrap();
    let snapshot = |conn: &Connection| -> Vec<(i64, String)> {
        let mut stmt = conn.prepare("SELECT id, name FROM items ORDER BY id").unwrap();
        let rows = stmt.query_map([], |row| Ok((row.get(0)?, row.get(1)?))).unwrap();
        rows.map(|r| r.unwrap()).collect()
    };
    let before = snapshot(&keeper);
    for t in [TransactionType::Deferred, TransactionType::Immediate, TransactionType::Exclusive] {
        let mut pool = pool_of(1);
        let mut conn = DbConnection::new(checkout(&mut pool, store));
        let mut tx = begin(&mut conn, t);
        execute(&mut tx, "INSERT INTO items (name) VALUES ('d')").unwrap();
        execute(&mut tx, "UPDATE items SET name = 'z' WHERE id = 1").unwrap();
        execute(&mut tx, "DELETE FROM items WHERE id = 2").unwrap();
        assert!(execute(&mut tx, "INSERT INTO missing VALUES (1)").is_err());
        assert_eq!(drop_transaction(&mut pool, tx), None);
        assert_eq!(snapshot(&keeper), before);
    }
}

#[test]
fn committed_writes_are_seen_by_a_connection_opened_later() {
    let store = "committed";
    let keeper = open_store(store).unwrap();
    run(&keeper, "CREATE TABLE items (id INTEGER PRIMARY KEY, name TEXT);").unwrap();

    let mut pool = pool_of(2);
    let mut conn = DbConnection::new(checkout(&mut pool, store));
    let mut tx = begin(&mut conn, TransactionType::Immediate);
    execute(&mut tx, "INSERT INTO items (name) VALUES ('kept')").unwrap();
    let work = tx.commit().unwrap();
    let outcome = run(work.data.get().unwrap(), work.sql);
    let (result, release) = tx.closed(&mut conn, work.data, outcome);
    assert_eq!(result, Ok(()));
    assert!(release.is_none());

    let later = open_store(store).unwrap();
    assert_eq!(count(&later), 1);
    let name: String = later.query_row("SELECT name FROM items", [], |r| r.get(0)).unwrap();
    assert_eq!(name, "kept");
}

#[test]
fn failed_statement_carries_the_drivers_code_and_message() {
    let conn = Connection::open_in_memory().unwrap();
    match run(&conn, "INSERT INTO missing VALUES (1)") {
        Err(Error::SqlError { code, message }) => {
            assert_eq!(code, 1);
            assert!(message.contains("missing"));
        }
        other => panic!("unexpected outcome: {:?}", other),
    }
}

#[test]
fn streaming_query_yields_all_rows_and_frees_the_connection() {
    let store = "streaming";
    let keeper = open_store(store).unwrap();
    run(&keeper, "CREATE TABLE items (id INTEGER PRIMARY KEY, name TEXT); INSERT INTO items (name) VALUES ('a'), ('b'), ('c'), ('d');").unwrap();

    let mut pool = pool_of(1);
    let mut conn = DbConnection::new(checkout(&mut pool, store));
    let mut data = conn.start_blocking().unwrap();

    for take in [usize::MAX, 2] {
        let stream = data.do_query_stream();
        let mut cursor = RowCursor::new();
        let mut read: Vec<String> = Vec::new();
        {
            let parked = stream.get().unwrap();
            let mut stmt = parked.prepare("SELECT name FROM items ORDER BY id").unwrap();
            let mut rows = stmt.query([]).unwrap();
            while !cursor.is_done() && read.len() < take {
                let fetched = match rows.next() {
                    Ok(Some(row)) => row.get::<_, String>(0).map(Some).map_err(sql_error),
                    Ok(None) => Ok(None),
                    Err(e) => Err(sql_error(e)),
                };
                if let Some(item) = cursor.pull(fetched) {
                    read.push(item.unwrap());
                }
            }
        }
        if take == usize::MAX {
            assert_eq!(read, vec!["a", "b", "c", "d"]);
            assert!(cursor.is_done());
        } else {
            assert_eq!(read, vec!["a", "b"]);
            assert!(!cursor.is_done());
        }
        data.end_stream(stream);
        // an ordinary statement runs on the connection again
        run(data.get().unwrap(), "UPDATE items SET name = name").unwrap();
    }
    conn.finish_blocking(data);
}

#[test]
fn stored_values_survive_the_database() {
    let conn = Connection::open_in_memory().unwrap();
    run(&conn, "CREATE TABLE kv (k TEXT PRIMARY KEY, id TEXT, version INTEGER, data BLOB);").unwrap();
    let stored = encode(&-123456789i64).unwrap();
    conn.execute(
        "INSERT INTO kv VALUES ('n', ?1, ?2, ?3)",
        (&stored.schema_id, stored.schema_version, &stored.data),
    )
    .unwrap();
    let (id, version, data): (String, u32, Vec<u8>) = conn
        .query_row("SELECT id, version, data FROM kv WHERE k = 'n'", [], |r| {
            Ok((r.get(0)?, r.get(1)?, r.get(2)?))
        })
        .unwrap();
    assert_eq!(decode::<i64>(&id, version, &data), Ok(-123456789));
    assert_eq!(decode::<u64>(&id, version, &data), Err(Error::MigrationUnsupported));
}
