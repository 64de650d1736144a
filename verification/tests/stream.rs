use sylphie_database::connection::{DbOpsData, Release};
use sylphie_database::error::Error;
use sylphie_database::pool::{Checkout, Pool, PoolConfig};
use sylphie_database::stream::RowCursor;

fn data(name: &'static str) -> DbOpsData<&'static str> {
    let mut pool = Pool::new(PoolConfig { max_size: 1, idle_timeout: None, wait_timeout: None });
    assert!(matches!(pool.get(), Ok(Checkout::Connect)));
    DbOpsData::new(pool.connected(Ok(name)).0.unwrap())
}

#[test]
fn stream_yields_every_row_in_order() {
    let mut data = data("c");
    let stream = data.do_query_stream();
    let mut cursor_state = RowCursor::new();
    assert_eq!(stream.get(), Ok(&"c"));
    // while the stream lives the connection is parked in it
    assert_eq!(data.get(), Err(Error::PoisonedResource));
    let rows = vec![10u32, 20, 30, 40];
    let mut cursor = rows.clone().into_iter();
    let mut read = Vec::new();
    while !cursor_state.is_done() {
        if let Some(item) = cursor_state.pull(Ok(cursor.next())) {
            read.push(item.unwrap());
        }
    }
    assert_eq!(read, rows);
    assert_eq!(cursor_state.pull(Ok(Some(99u32))), None);
    data.end_stream(stream);
    assert_eq!(data.get(), Ok(&"c"));
}

#[test]
fn stream_over_no_rows_yields_nothing() {
    let mut data = data("c");
    let stream = data.do_query_stream();
    let mut cursor = RowCursor::new();
    assert_eq!(cursor.pull::<u8>(Ok(None)), None);
    assert!(cursor.is_done());
    data.end_stream(stream);
    assert_eq!(data.get(), Ok(&"c"));
}

#[test]
fn abandoned_stream_gives_the_connection_back() {
    let mut data = data("c");
    let stream = data.do_query_stream();
    let mut cursor = RowCursor::new();
    assert_eq!(cursor.pull(Ok(Some(1u8))), Some(Ok(1)));
    assert_eq!(cursor.pull(Ok(Some(2u8))), Some(Ok(2)));
    assert!(!cursor.is_done());
    // the reader gives up after two of five rows
    data.end_stream(stream);
    assert_eq!(data.get(), Ok(&"c"));
    assert!(matches!(data.release(), Release::Return { .. }));
}

#[test]
fn failure_is_yielded_once_and_ends_the_stream() {
    let mut data = data("c");
    let stream = data.do_query_stream();
    let mut cursor = RowCursor::new();
    assert_eq!(cursor.pull(Ok(Some(1u8))), Some(Ok(1)));
    let failure = Error::SqlError { code: 1, message: String::from("no such table") };
    assert_eq!(cursor.pull::<u8>(Err(failure.clone())), Some(Err(failure)));
    assert!(cursor.is_done());
    assert_eq!(cursor.pull(Ok(Some(2u8))), None);
    data.end_stream(stream);
    assert_eq!(data.get(), Ok(&"c"));
}

#[test]
fn stream_started_without_a_connection_reports_it() {
    let mut data = data("c");
    let first = data.do_query_stream();
    let second = data.do_query_stream();
    let mut cursor = RowCursor::new();
    let fetched = second.get().map(|_| None::<u8>);
    assert_eq!(fetched, Err(Error::PoisonedResource));
    assert_eq!(cursor.pull(fetched), Some(Err(Error::PoisonedResource)));
    assert!(cursor.is_done());
    data.end_stream(first);
    assert_eq!(data.get(), Ok(&"c"));
}
