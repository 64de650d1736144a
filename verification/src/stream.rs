//! A query whose rows are pulled one at a time. While the stream lives it
//! holds the connection; the host steps the cursor and hands each step in,
//! and the stream says what its reader gets.

use vstd::prelude::*;
use crate::bridge::BlockingBridge;
use crate::error::Error;

verus! {

/// What one step of the cursor gives the host: a row, the end, or a
/// failure.
pub type Fetched<T> = Result<Option<T>, Error>;

/// What a stream does with one step of the cursor: whether it is finished
/// afterwards, and what its reader gets. A finished stream gives nothing. A
/// row is passed on. The end of the cursor finishes the stream quietly. A
/// failure is passed on once and finishes the stream.
pub open spec fn pull_step<T>(done: bool, fetched: Fetched<T>) -> (bool, Option<Result<T, Error>>) {
    if done {
        (true, None)
    } else {
        match fetched {
            Ok(Some(row)) => (false, Some(Ok(row))),
            Ok(None) => (true, None),
            Err(e) => (true, Some(Err(e))),
        }
    }
}

/// What the reader of a stream gets, in order, while the host hands in
/// `steps` one after the other.
pub open spec fn yielded<T>(done: bool, steps: Seq<Fetched<T>>) -> Seq<Result<T, Error>>
    decreases steps.len(),
{
    if steps.len() == 0 {
        Seq::empty()
    } else {
        let (next_done, item) = pull_step(done, steps[0]);
        match item {
            Some(x) => seq![x] + yielded(next_done, steps.drop_first()),
            None => yielded(next_done, steps.drop_first()),
        }
    }
}

/// Whether a stream is finished after the host has handed in `steps`.
pub open spec fn done_after<T>(done: bool, steps: Seq<Fetched<T>>) -> bool
    decreases steps.len(),
{
    if steps.len() == 0 {
        done
    } else {
        done_after(pull_step(done, steps[0]).0, steps.drop_first())
    }
}

/// The steps of a cursor over `rows` that does not fail: each row, then the
/// end.
pub open spec fn cursor_steps<T>(rows: Seq<T>) -> Seq<Fetched<T>> {
    Seq::new(rows.len() + 1, |i: int| if i < rows.len() {
        Ok(Some(rows[i]))
    } else {
        Ok(None)
    })
}

/// A live streaming query: it holds the connection, parked, for as long as
/// the query lasts.
pub struct QueryStream<C> {
    conn: BlockingBridge<C>,
}

impl<C> QueryStream<C> {
    /// The parked connection, if the stream got one.
    pub closed spec fn connection(&self) -> Option<C> {
        self.conn@
    }

    /// A stream over a parked connection.
    pub(crate) fn new(conn: BlockingBridge<C>) -> (stream: Self)
        ensures
            stream.connection() == conn@,
    {
        QueryStream { conn }
    }

    /// Ends the stream and gives up the connection.
    pub(crate) fn into_connection(self) -> (conn: BlockingBridge<C>)
        ensures
            conn@ == self.connection(),
    {
        self.conn
    }

    /// The connection to step the cursor on, or `PoisonedResource` where the
    /// stream was started without one.
    pub fn get(&self) -> (r: Result<&C, Error>)
        ensures
            match self.connection() {
                Some(c) => r == Ok::<&C, Error>(&c),
                None => r == Err::<&C, Error>(Error::PoisonedResource),
            },
    {
        self.conn.get()
    }
}

/// The reading end of a streaming query: whether it has come to its end.
pub struct RowCursor {
    done: bool,
}

impl RowCursor {
    /// Whether the stream has come to its end.
    pub closed spec fn done(&self) -> bool {
        self.done
    }

    /// The reading end of a stream that has yielded nothing yet.
    pub fn new() -> (cursor: Self)
        ensures
            !cursor.done(),
    {
        RowCursor { done: false }
    }

    /// Whether the stream has come to its end; the host steps the cursor
    /// only while it has not.
    pub fn is_done(&self) -> (done: bool)
        ensures
            done == self.done(),
    {
        self.done
    }

    /// Takes in one step of the cursor and gives what the reader gets.
    pub fn pull<T>(&mut self, fetched: Fetched<T>) -> (item: Option<Result<T, Error>>)
        ensures
            (final(self).done(), item) == pull_step(old(self).done(), fetched),
    {
        if self.done {
            None
        } else {
            match fetched {
                Ok(Some(row)) => Some(Ok(row)),
                Ok(None) => {
                    self.done = true;
                    None
                },
                Err(e) => {
                    self.done = true;
                    Some(Err(e))
                },
            }
        }
    }
}

/// A stream over a cursor of K rows that does not fail gives its reader
/// exactly those K rows, in the cursor's order, and is finished after the
/// step that follows the last row.
pub proof fn lemma_stream_yields_rows_in_order<T>(rows: Seq<T>)
    ensures
        yielded(false, cursor_steps(rows)) == rows.map_values(|row: T| Ok::<T, Error>(row)),
        yielded(false, cursor_steps(rows)).len() == rows.len(),
        done_after(false, cursor_steps(rows)),
    decreases rows.len(),
{
    let steps = cursor_steps(rows);
    let expected = rows.map_values(|row: T| Ok::<T, Error>(row));
    if rows.len() == 0 {
        assert(steps.drop_first().len() == 0);
        assert(steps[0] == Ok::<Option<T>, Error>(None));
        assert(yielded(false, steps) == yielded(true, steps.drop_first()));
        assert(yielded(false, steps) =~= expected);
        assert(done_after(true, steps.drop_first()));
    } else {
        let rest = rows.drop_first();
        lemma_stream_yields_rows_in_order(rest);
        let tail = yielded(false, cursor_steps(rest));
        assert(steps.drop_first() =~= cursor_steps(rest));
        assert(pull_step(false, steps[0]) == (false, Some(Ok::<T, Error>(rows[0]))));
        assert(yielded(false, steps) == seq![Ok::<T, Error>(rows[0])] + tail);
        assert forall|i: int| 0 <= i < rows.len() implies (seq![Ok::<T, Error>(rows[0])] + tail)[i]
            == expected[i] by {
            if i > 0 {
                assert(tail[i - 1] == rest.map_values(|row: T| Ok::<T, Error>(row))[i - 1]);
                assert(rest[i - 1] == rows[i]);
            }
        }
        assert(yielded(false, steps) =~= expected);
    }
}

/// A stream that is abandoned after `j` steps of a cursor over K rows that
/// does not fail, `j` at most K, has given its reader exactly the first `j`
/// rows, in the cursor's order, and is not finished.
pub proof fn lemma_abandoned_stream_yields_prefix<T>(rows: Seq<T>, j: int)
    requires
        0 <= j <= rows.len(),
    ensures
        yielded(false, cursor_steps(rows).take(j)) == rows.take(j).map_values(
            |row: T| Ok::<T, Error>(row),
        ),
        !done_after(false, cursor_steps(rows).take(j)),
    decreases j,
{
    let steps = cursor_steps(rows).take(j);
    let expected = rows.take(j).map_values(|row: T| Ok::<T, Error>(row));
    if j == 0 {
        assert(yielded(false, steps) =~= expected);
    } else {
        let rest = rows.drop_first();
        lemma_abandoned_stream_yields_prefix(rest, j - 1);
        let tail = yielded(false, cursor_steps(rest).take(j - 1));
        assert(steps.drop_first() =~= cursor_steps(rest).take(j - 1));
        assert(pull_step(false, steps[0]) == (false, Some(Ok::<T, Error>(rows[0]))));
        assert(yielded(false, steps) == seq![Ok::<T, Error>(rows[0])] + tail);
        assert forall|i: int| 0 <= i < j implies (seq![Ok::<T, Error>(rows[0])] + tail)[i]
            == expected[i] by {
            if i > 0 {
                assert(tail[i - 1] == rest.take(j - 1).map_values(|row: T| Ok::<T, Error>(row))[i
                    - 1]);
            }
        }
        assert(yielded(false, steps) =~= expected);
    }
}

/// A finished stream gives its reader nothing, whatever the host hands in.
pub proof fn lemma_finished_stream_is_silent<T>(steps: Seq<Fetched<T>>)
    ensures
        yielded(true, steps).len() == 0,
        done_after(true, steps),
    decreases steps.len(),
{
    if steps.len() > 0 {
        lemma_finished_stream_is_silent(steps.drop_first());
    }
}

} // verus!
