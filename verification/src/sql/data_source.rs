//! Data sources, cursors and records: the result-set side of a query.
//!
//! A query produces a [`DataSource`], which reports its column count and
//! types immediately. A [`Cursor`] starts before the first row;
//! [`Cursor::advance`] moves to the next row or reports the end, and
//! [`Cursor::current_record`] is valid only between an `advance` that
//! returned `true` and the next `advance` call. A [`Record`] borrows the
//! cursor, so advancing while a record is alive is refused by the borrow
//! checker: invalidate-on-advance is a hard aliasing invariant here, not a
//! convention.

use vstd::prelude::*;

use crate::sql::value::{copy_value, Type, ValShape, Value};
use crate::sql::{SqlCode, SqlError};
use crate::store::Column;
use crate::Error;

verus! {

/// A data source: the rows produced by a query, together with the column
/// metadata.
pub struct DataSource {
    /// The columns of the result set.
    pub cols: Vec<Column>,
    /// The rows, in result order.
    pub rows: Vec<Vec<Value>>,
}

impl DataSource {
    /// The shapes of the rows.
    pub open spec fn rows_view(self) -> Seq<Seq<ValShape>> {
        self.rows.deep_view()
    }

    /// Builds a data source from column metadata and rows.
    pub fn new(cols: Vec<Column>, rows: Vec<Vec<Value>>) -> (r: DataSource)
        ensures
            r.cols == cols,
            r.rows == rows,
    {
        DataSource { cols, rows }
    }

    /// Returns the number of columns.
    pub fn n_columns(&self) -> (r: usize)
        ensures
            r == self.cols@.len(),
    {
        self.cols.len()
    }

    /// Returns the number of rows.
    pub fn n_rows(&self) -> (r: usize)
        ensures
            r == self.rows@.len(),
    {
        self.rows.len()
    }

    /// Returns the type and the name of the column at `col`, or
    /// `IndexOutOfBounds` past the last column.
    pub fn column_info(&self, col: usize) -> (r: Result<(Type, String), Error>)
        ensures
            (col < self.cols@.len() ==> (r matches Ok(info) && info.0 == self.cols@[
                col as int].ty && info.1@ == self.cols@[col as int].name@)),
            (col >= self.cols@.len() ==> r == Err::<(Type, String), Error>(
                Error::Sql(SqlError(SqlCode::IndexOutOfBounds)),
            )),
    {
        if col < self.cols.len() {
            Ok((self.cols[col].ty, self.cols[col].name.clone()))
        } else {
            Err(Error::Sql(SqlError(SqlCode::IndexOutOfBounds)))
        }
    }

    /// Creates a cursor over this data source, positioned before the
    /// first row.
    pub fn cursor(&self) -> (r: Result<Cursor<'_>, Error>)
        ensures
            (r matches Ok(c) && c.ds == self && !c.started && !c.done && c.pos == 0 && c.wf()),
    {
        Ok(Cursor { ds: self, pos: 0, started: false, done: false })
    }
}

/// A cursor over a data source. It starts before the first row; a record
/// is reachable only between an `advance` that returned `true` and the
/// next `advance`.
pub struct Cursor<'a> {
    /// The underlying data source.
    pub ds: &'a DataSource,
    /// The current row position, meaningful once started and not done.
    pub pos: usize,
    /// Whether the cursor was advanced at least once.
    pub started: bool,
    /// Whether the cursor has moved past the last row.
    pub done: bool,
}

impl<'a> Cursor<'a> {
    /// Cursor sanity: the position stays within the rows while the cursor
    /// is on a row, is zero before the first advance, and `done` implies
    /// `started`.
    pub open spec fn wf(self) -> bool {
        &&& (!self.started ==> self.pos == 0 && !self.done)
        &&& (self.started && !self.done ==> self.pos < self.ds.rows@.len())
        &&& (self.done ==> self.started)
    }

    /// The row the cursor currently stands on: none before the first
    /// advance and none after the end was reported.
    pub open spec fn at_row(self) -> Option<int> {
        if self.started && !self.done {
            Some(self.pos as int)
        } else {
            None
        }
    }

    /// Creates a cursor over `source`, positioned before the first row.
    pub fn new(source: &'a DataSource) -> (r: Cursor<'a>)
        ensures
            r.ds == source,
            !r.started,
            !r.done,
            r.wf(),
    {
        Cursor { ds: source, pos: 0, started: false, done: false }
    }

    /// Advances the cursor. Returns `true` exactly when a record is
    /// available at the new position: the first advance lands on row
    /// zero, each later one on the following row, and once the rows are
    /// exhausted every further advance returns `false`.
    pub fn advance(&mut self) -> (r: Result<bool, Error>)
        requires
            old(self).wf(),
        ensures
            final(self).wf(),
            final(self).ds == old(self).ds,
            (old(self).done ==> r == Ok::<bool, Error>(false) && *final(self) == *old(self)),
            (!old(self).done ==> ({
                let np = if !old(self).started {
                    0int
                } else {
                    old(self).pos + 1int
                };
                &&& (np < old(self).ds.rows@.len() ==> r == Ok::<bool, Error>(true) && final(self).started && !final(self).done && final(self).pos == np)
                &&& (np >= old(self).ds.rows@.len() ==> r == Ok::<bool, Error>(false) && final(self).done)
            })),
    {
        if self.done {
            return Ok(false);
        }
        let n = self.ds.rows.len();
        let np: usize = if !self.started {
            0
        } else {
            self.pos + 1
        };
        self.started = true;
        if np < n {
            self.pos = np;
            Ok(true)
        } else {
            self.done = true;
            Ok(false)
        }
    }

    /// Returns the record at the cursor's position: `None` before the
    /// first `advance`, and `None` again once an `advance` has returned
    /// `false`. The record borrows the cursor, so it always reflects the
    /// row at the position at the time `advance` returned `true` — the
    /// cursor cannot move while the record is alive.
    pub fn current_record(&self) -> (r: Option<Record<'_>>)
        requires
            self.wf(),
        ensures
            (self.at_row() matches Some(p) ==> (r matches Some(rec) && rec.row.deep_view()
                == self.ds.rows.deep_view()[p])),
            (self.at_row() is None ==> r is None),
    {
        if self.started && !self.done {
            Some(Record { row: &self.ds.rows[self.pos] })
        } else {
            None
        }
    }
}

/// A record: one row of data produced by a query, borrowed from the
/// cursor that stands on it.
pub struct Record<'a> {
    /// The values of the row.
    pub row: &'a Vec<Value>,
}

impl<'a> Record<'a> {
    /// Wraps a row.
    pub fn new(row: &'a Vec<Value>) -> (r: Record<'a>)
        ensures
            r.row == row,
    {
        Record { row }
    }

    /// Returns a copy of the value in column `col`, or `IndexOutOfBounds`
    /// past the last column.
    pub fn get_at(&self, col: usize) -> (r: Result<Value, Error>)
        ensures
            (col < self.row@.len() ==> (r matches Ok(v) && v@ == self.row.deep_view()[col as int])),
            (col >= self.row@.len() ==> r == Err::<Value, Error>(
                Error::Sql(SqlError(SqlCode::IndexOutOfBounds)),
            )),
    {
        if col < self.row.len() {
            Ok(copy_value(&self.row[col]))
        } else {
            Err(Error::Sql(SqlError(SqlCode::IndexOutOfBounds)))
        }
    }
}

/// Cursor aliasing: before the first `advance` there is no current
/// record; after an `advance` has returned `false` there is none again;
/// and while the cursor stands on a row, the row is within the data
/// source, so the record obtained reflects exactly the row at the
/// position at the time `advance` returned `true`.
pub proof fn lemma_cursor_aliasing(c: Cursor)
    requires
        c.wf(),
    ensures
        (!c.started ==> c.at_row() is None),
        (c.done ==> c.at_row() is None),
        (c.at_row() matches Some(p) ==> 0 <= p < c.ds.rows@.len()),
{
}

} // verus!
