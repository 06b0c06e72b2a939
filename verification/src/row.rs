//! Materialized result rows, lazily dereferenced fields, and the cursor
//! that yields rows in order. A row captures column names and decoded
//! values at enumeration time; reading a row or field afterwards performs
//! no further engine work and never fails.

use vstd::prelude::*;

use crate::error::Error;
use crate::scalar::ScalarValue;
use crate::strutil::str_eq;

verus! {

/// One result row: column names and decoded values, in column order.
#[derive(Debug)]
pub struct DuckDbRow {
    column_names: Vec<String>,
    values: Vec<ScalarValue>,
}

impl DuckDbRow {
    /// The column names, as character sequences.
    pub closed spec fn names(&self) -> Seq<Seq<char>> {
        self.column_names@.map_values(|s: String| s@)
    }

    /// The decoded values, in column order.
    pub closed spec fn values_spec(&self) -> Seq<ScalarValue> {
        self.values@
    }

    /// A well-formed row names exactly as many columns as it holds values.
    pub open spec fn wf(&self) -> bool {
        self.names().len() == self.values_spec().len()
    }

    /// Build a row from the parts captured at enumeration time.
    pub fn from_parts(column_names: Vec<String>, values: Vec<ScalarValue>) -> (r: Self)
        requires
            column_names@.len() == values@.len(),
        ensures
            r.names() == column_names@.map_values(|s: String| s@),
            r.values_spec() == values@,
            r.wf(),
    {
        DuckDbRow { column_names, values }
    }

    /// How many fields the row holds.
    pub fn field_count(&self) -> (r: usize)
        ensures
            r == self.values_spec().len(),
    {
        self.values.len()
    }

    /// The field at a position, where the position is in range.
    pub fn get<'b>(&'b self, idx: usize) -> (r: Option<DuckDbField<'b>>)
        ensures
            r is Some <==> (idx as int) < self.values_spec().len(),
            r matches Some(f) ==> f.row_spec() == *self && f.idx_spec() == idx as int,
    {
        if idx < self.values.len() {
            Some(DuckDbField::new(self, idx))
        } else {
            None
        }
    }

    /// The position of the first column bearing `name`, if any.
    pub fn idx_of_name(&self, name: &str) -> (r: Option<usize>)
        ensures
            match r {
                Some(i) => {
                    &&& (i as int) < self.names().len()
                    &&& self.names()[i as int] == name@
                    &&& forall|k: int| 0 <= k < i ==> self.names()[k] != name@
                },
                None => forall|k: int|
                    0 <= k < self.names().len() ==> self.names()[k] != name@,
            },
    {
        let n = self.column_names.len();
        let mut i: usize = 0;
        while i < n
            invariant
                n == self.column_names@.len(),
                0 <= i <= n,
                forall|k: int| 0 <= k < i ==> self.names()[k] != name@,
            decreases n - i,
        {
            if str_eq(self.column_names[i].as_str(), name) {
                assert(self.names()[i as int] == name@);
                return Some(i);
            }
            assert(self.names()[i as int] != name@);
            i = i + 1;
        }
        None
    }

    /// The field under the first column bearing `name`, resolved by a
    /// first-match linear lookup; nothing when no column bears it. Only
    /// meaningful on a well-formed row, whose name count equals its value
    /// count.
    pub fn get_by_name<'b>(&'b self, name: &str) -> (r: Option<DuckDbField<'b>>)
        requires
            self.wf(),
        ensures
            match r {
                Some(f) => {
                    &&& f.row_spec() == *self
                    &&& 0 <= f.idx_spec() < self.names().len()
                    &&& self.names()[f.idx_spec()] == name@
                    &&& forall|k: int| 0 <= k < f.idx_spec() ==> self.names()[k] != name@
                },
                None => forall|k: int|
                    0 <= k < self.names().len() ==> self.names()[k] != name@,
            },
    {
        match self.idx_of_name(name) {
            Some(i) => self.get(i),
            None => None,
        }
    }
}

/// A lazily-dereferenced field: a position paired with the row that owns
/// the value. It carries no ownership of its own.
#[derive(Debug)]
pub struct DuckDbField<'row> {
    row: &'row DuckDbRow,
    idx: usize,
}

impl<'row> DuckDbField<'row> {
    /// The row this field reads from.
    pub closed spec fn row_spec(&self) -> DuckDbRow {
        *self.row
    }

    /// The position this field reads.
    pub closed spec fn idx_spec(&self) -> int {
        self.idx as int
    }

    /// A field over `row` at position `idx`.
    pub fn new(row: &'row DuckDbRow, idx: usize) -> (r: Self)
        ensures
            r.row_spec() == *row,
            r.idx_spec() == idx as int,
    {
        DuckDbField { row, idx }
    }

    /// The name of this field's column, where the position names one.
    pub fn field_name(&self) -> (r: Option<&str>)
        ensures
            r is Some <==> self.idx_spec() < self.row_spec().names().len(),
            r matches Some(s) ==> s@ == self.row_spec().names()[self.idx_spec()],
    {
        if self.idx < self.row.column_names.len() {
            Some(self.row.column_names[self.idx].as_str())
        } else {
            None
        }
    }

    /// True exactly when the captured value is the explicit null. There
    /// is no separate null bitmap, and the reading never fails.
    pub fn is_null(&self) -> (r: bool)
        ensures
            r == (self.idx_spec() < self.row_spec().values_spec().len()
                && self.row_spec().values_spec()[self.idx_spec()] is Null),
    {
        if self.idx < self.row.values.len() {
            self.row.values[self.idx].is_null()
        } else {
            false
        }
    }

    /// The captured value, where the position holds one. No engine call
    /// happens here; the value was decoded at enumeration time.
    pub fn value(&self) -> (r: Option<&ScalarValue>)
        ensures
            r is Some <==> self.idx_spec() < self.row_spec().values_spec().len(),
            r matches Some(v) ==> *v == self.row_spec().values_spec()[self.idx_spec()],
    {
        if self.idx < self.row.values.len() {
            Some(&self.row.values[self.idx])
        } else {
            None
        }
    }
}

/// An explicit null placed at the end of the bound values reads back as
/// null from the row that carries those values, whatever category the
/// position was declared with: the collector appended the `Null` variant
/// itself, and a field reports null exactly on that variant.
pub proof fn lemma_pushed_null_reads_null(before: Seq<ScalarValue>, row: DuckDbRow)
    requires
        row.values_spec() == before.push(ScalarValue::Null),
    ensures
        row.values_spec()[before.len() as int] is Null,
        before.len() < row.values_spec().len(),
{
}

/// Yields the materialized rows of one executed statement, in order,
/// exclusively owned until consumed. Its abstract value is the sequence
/// of rows not yet yielded.
#[derive(Debug)]
pub struct DuckDbCursor {
    /// The remaining rows, last-to-yield first.
    rows_reversed: Vec<DuckDbRow>,
}

impl View for DuckDbCursor {
    type V = Seq<DuckDbRow>;

    closed spec fn view(&self) -> Seq<DuckDbRow> {
        self.rows_reversed@.reverse()
    }
}

impl DuckDbCursor {
    /// A cursor over `rows`, to be yielded front to back.
    pub fn new(rows: Vec<DuckDbRow>) -> (r: Self)
        ensures
            r@ == rows@,
    {
        let ghost orig: Seq<DuckDbRow> = rows@;
        let mut src = rows;
        let mut rows_reversed: Vec<DuckDbRow> = Vec::new();
        while src.len() > 0
            invariant
                orig == src@ + rows_reversed@.reverse(),
            decreases src.len(),
        {
            let last = src.pop().unwrap();
            rows_reversed.push(last);
            proof {
                assert(orig =~= src@ + rows_reversed@.reverse());
            }
        }
        proof {
            assert(orig =~= rows_reversed@.reverse());
        }
        DuckDbCursor { rows_reversed }
    }

    /// The next row, wrapped the way the cursor interface reports one;
    /// yielding never fails. Nothing once all rows are consumed.
    pub fn next(&mut self) -> (r: Option<Result<DuckDbRow, Error>>)
        ensures
            old(self)@.len() == 0 ==> r is None && final(self)@ == old(self)@,
            old(self)@.len() > 0 ==> {
                &&& final(self)@ == old(self)@.drop_first()
                &&& r matches Some(q)
                &&& q matches Ok(row) && row == old(self)@[0]
            },
    {
        if self.rows_reversed.len() > 0 {
            let row = self.rows_reversed.pop().unwrap();
            proof {
                assert(final(self)@ =~= old(self)@.drop_first());
            }
            Some(Ok(row))
        } else {
            proof {
                assert(final(self)@ =~= old(self)@);
            }
            None
        }
    }
}

} // verus!
