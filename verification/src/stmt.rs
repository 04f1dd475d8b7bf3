//! The prepared-statement model.
//!
//! A [`Statement`] stands for the engine's prepared statement over the narrow
//! surface the marshalling layer needs: typed parameter binds into 1-based
//! slots, a cursor over result rows, and typed reads from the current row's
//! 0-based columns. The model owns every byte it holds: each bind primitive
//! copies its argument on entry (the engine's copy-now mode), and each read
//! primitive hands back a fresh owned value, so no value ever aliases memory
//! the caller or the statement may reuse.

use vstd::prelude::*;

use crate::data::Cell;
use crate::data::SqlData;
use crate::data::SQLITE_BLOB;
use crate::data::SQLITE_INTEGER;
use crate::data::SQLITE_NULL;
use crate::data::SQLITE_OK;
use crate::data::SQLITE_RANGE;
use crate::data::SQLITE_TEXT;
use crate::data::blob_of;
use crate::data::byte_len_of;
use crate::data::integer32_of;
use crate::data::integer_of;
use crate::data::storage_class;
use crate::data::text_of;

verus! {

/// A prepared statement of the engine, reduced to what the marshalling layer
/// touches: its parameter slots, the result rows its cursor has not yet
/// produced, and the current row.
pub struct Statement {
    /// Parameter slots; the 1-based slot `i` is `params[i - 1]`. An unbound
    /// slot holds null, as the engine treats unbound parameters.
    pub params: Vec<Cell>,
    /// Result rows the cursor has not yet produced, front first, in the order
    /// the cursor yields them.
    pub pending: Vec<Vec<Cell>>,
    /// The current row: what the most recent successful step produced. Empty
    /// when no row is current.
    pub row: Vec<Cell>,
}

/// What one bind primitive does when asked to write `d` into slot `col`:
/// within range it overwrites that slot and reports success; out of range it
/// changes nothing and reports the range error. No bind touches the cursor,
/// the current row, or any other slot.
pub open spec fn bind_outcome(
    pre: Statement,
    post: Statement,
    col: int,
    d: SqlData,
    r: int,
) -> bool {
    &&& post.pending.deep_view() == pre.pending.deep_view()
    &&& post.row.deep_view() == pre.row.deep_view()
    &&& if 1 <= col <= pre.params.deep_view().len() {
        &&& r == SQLITE_OK as int
        &&& post.params.deep_view() == pre.params.deep_view().update(col - 1, d)
    } else {
        &&& r == SQLITE_RANGE as int
        &&& post.params.deep_view() == pre.params.deep_view()
    }
}

impl Statement {
    /// A statement prepared for binding: `n` parameter slots, all initially
    /// null, no result rows.
    pub fn with_params(n: usize) -> (s: Statement)
        ensures
            s.params.deep_view() == Seq::new(n as nat, |i: int| SqlData::Null),
            s.pending.deep_view() == Seq::<Seq<SqlData>>::empty(),
            s.row.deep_view() == Seq::<SqlData>::empty(),
    {
        let mut params: Vec<Cell> = Vec::new();
        let mut i: usize = 0;
        while i < n
            invariant
                i <= n,
                params@.len() == i,
                forall|j: int| 0 <= j < i ==> params@[j] == Cell::Null,
            decreases n - i,
        {
            params.push(Cell::Null);
            i = i + 1;
        }
        proof {
            assert(params.deep_view() =~= Seq::new(n as nat, |j: int| SqlData::Null));
        }
        let s = Statement { params, pending: Vec::new(), row: Vec::new() };
        proof {
            assert(s.pending.deep_view() =~= Seq::<Seq<SqlData>>::empty());
            assert(s.row.deep_view() =~= Seq::<SqlData>::empty());
        }
        s
    }

    /// A statement whose result set is `rows`, in the order the cursor yields
    /// them. No row is current until the first step.
    pub fn with_rows(rows: Vec<Vec<Cell>>) -> (s: Statement)
        ensures
            s.pending.deep_view() == rows.deep_view(),
            s.params.deep_view() == Seq::<SqlData>::empty(),
            s.row.deep_view() == Seq::<SqlData>::empty(),
    {
        let s = Statement { params: Vec::new(), pending: rows, row: Vec::new() };
        proof {
            assert(s.params.deep_view() =~= Seq::<SqlData>::empty());
            assert(s.row.deep_view() =~= Seq::<SqlData>::empty());
        }
        s
    }

    /// Consumes a fully bound statement and hands over its parameter row: the
    /// row the engine would store when an insert statement is stepped.
    pub fn into_row(self) -> (r: Vec<Cell>)
        ensures
            r.deep_view() == self.params.deep_view(),
    {
        self.params
    }

    /// Advance the cursor: make the next result row current and report `true`,
    /// or report `false` with no current row once the result set is exhausted.
    /// Rows come out in exactly the order they are stored.
    pub fn step(&mut self) -> (r: bool)
        ensures
            final(self).params.deep_view() == old(self).params.deep_view(),
            old(self).pending.deep_view().len() > 0 ==> {
                &&& r
                &&& final(self).row.deep_view() == old(self).pending.deep_view()[0]
                &&& final(self).pending.deep_view() == old(self).pending.deep_view().skip(1)
            },
            old(self).pending.deep_view().len() == 0 ==> {
                &&& !r
                &&& final(self).row.deep_view() == Seq::<SqlData>::empty()
                &&& final(self).pending.deep_view() == old(self).pending.deep_view()
            },
    {
        if self.pending.len() > 0 {
            let row = self.pending.remove(0);
            self.row = row;
            proof {
                assert(self.pending.deep_view() =~= old(self).pending.deep_view().skip(1));
            }
            true
        } else {
            self.row = Vec::new();
            proof {
                assert(self.row.deep_view() =~= Seq::<SqlData>::empty());
            }
            false
        }
    }

    /// The one shared bind primitive: writes an owned cell into a slot.
    fn bind_cell(&mut self, col: i32, c: Cell) -> (r: i32)
        ensures
            bind_outcome(*old(self), *final(self), col as int, c@, r as int),
    {
        if col >= 1 && (col as usize) <= self.params.len() {
            let idx = (col as usize) - 1;
            self.params[idx] = c;
            proof {
                assert(self.params.deep_view() =~= old(self).params.deep_view().update(
                    col - 1,
                    c@,
                ));
            }
            SQLITE_OK
        } else {
            SQLITE_RANGE
        }
    }

    /// Bind a 32-bit integer into slot `col`.
    pub fn bind_int(&mut self, col: i32, v: i32) -> (r: i32)
        ensures
            bind_outcome(*old(self), *final(self), col as int, SqlData::Integer(v as int), r as int),
    {
        self.bind_cell(col, Cell::Integer(v as i64))
    }

    /// Bind a 64-bit integer into slot `col`.
    pub fn bind_int64(&mut self, col: i32, v: i64) -> (r: i32)
        ensures
            bind_outcome(*old(self), *final(self), col as int, SqlData::Integer(v as int), r as int),
    {
        self.bind_cell(col, Cell::Integer(v))
    }

    /// Bind text into slot `col`. The bytes are copied on entry (the engine's
    /// copy-now mode): the caller's buffer may be freed or reused the instant
    /// this returns.
    pub fn bind_text(&mut self, col: i32, v: &str) -> (r: i32)
        ensures
            bind_outcome(*old(self), *final(self), col as int, SqlData::Text(v@), r as int),
    {
        self.bind_cell(col, Cell::Text(v.to_owned()))
    }

    /// Bind a blob of exactly `v`'s length into slot `col`. The bytes are
    /// copied on entry (the engine's copy-now mode).
    pub fn bind_blob(&mut self, col: i32, v: &[u8]) -> (r: i32)
        ensures
            bind_outcome(*old(self), *final(self), col as int, SqlData::Blob(v@), r as int),
    {
        self.bind_cell(col, Cell::Blob(vstd::slice::slice_to_vec(v)))
    }

    /// Bind null into slot `col`.
    pub fn bind_null(&mut self, col: i32) -> (r: i32)
        ensures
            bind_outcome(*old(self), *final(self), col as int, SqlData::Null, r as int),
    {
        self.bind_cell(col, Cell::Null)
    }

    /// The dynamic storage-type probe: which storage class column `col` of the
    /// current row holds, independent of how it will be read.
    pub fn column_type(&self, col: i32) -> (r: i32)
        requires
            0 <= col < self.row.deep_view().len(),
        ensures
            r as int == storage_class(self.row.deep_view()[col as int]),
    {
        match &self.row[col as usize] {
            Cell::Null => SQLITE_NULL,
            Cell::Integer(_) => SQLITE_INTEGER,
            Cell::Text(_) => SQLITE_TEXT,
            Cell::Blob(_) => SQLITE_BLOB,
        }
    }

    /// 32-bit integer read of column `col` of the current row, under the
    /// engine's coercion: non-integer storage reads as zero, and a value
    /// outside the 32-bit range clamps to the nearest representable value.
    pub fn column_int(&self, col: i32) -> (r: i32)
        requires
            0 <= col < self.row.deep_view().len(),
        ensures
            r as int == integer32_of(self.row.deep_view()[col as int]),
    {
        match &self.row[col as usize] {
            Cell::Integer(i) => {
                let v = *i;
                if v < i32::MIN as i64 {
                    i32::MIN
                } else if v > i32::MAX as i64 {
                    i32::MAX
                } else {
                    v as i32
                }
            },
            _ => 0,
        }
    }

    /// 64-bit integer read of column `col` of the current row; non-integer
    /// storage reads as zero.
    pub fn column_int64(&self, col: i32) -> (r: i64)
        requires
            0 <= col < self.row.deep_view().len(),
        ensures
            r as int == integer_of(self.row.deep_view()[col as int]),
    {
        match &self.row[col as usize] {
            Cell::Integer(i) => *i,
            _ => 0,
        }
    }

    /// Text read of column `col` of the current row. Null storage yields no
    /// buffer at all (the engine's null pointer), modelled as `None`; any other
    /// storage yields the column's text, handed back as a fresh owned copy so
    /// it survives the next step.
    pub fn column_text(&self, col: i32) -> (r: Option<String>)
        requires
            0 <= col < self.row.deep_view().len(),
        ensures
            ({
                let d = self.row.deep_view()[col as int];
                match r {
                    Option::None => d is Null,
                    Option::Some(s) => !(d is Null) && s@ == text_of(d),
                }
            }),
    {
        match &self.row[col as usize] {
            Cell::Null => None,
            Cell::Text(s) => Some(s.clone()),
            _ => Some(String::new()),
        }
    }

    /// Blob read of column `col` of the current row. Null storage yields no
    /// buffer at all (the engine's null pointer), modelled as `None`; any other
    /// storage yields the column's bytes as a fresh owned copy of exactly the
    /// reported length.
    pub fn column_blob(&self, col: i32) -> (r: Option<Vec<u8>>)
        requires
            0 <= col < self.row.deep_view().len(),
        ensures
            ({
                let d = self.row.deep_view()[col as int];
                match r {
                    Option::None => d is Null,
                    Option::Some(b) => !(d is Null) && b@ == blob_of(d),
                }
            }),
    {
        match &self.row[col as usize] {
            Cell::Null => None,
            Cell::Blob(b) => Some(vstd::slice::slice_to_vec(b.as_slice())),
            _ => Some(Vec::new()),
        }
    }

    /// Byte count of column `col` of the current row: a blob reports its exact
    /// length, clamped to the reporting type's maximum; the count is never
    /// negative. Other storage classes report zero (the model does not track
    /// text byte lengths).
    pub fn column_bytes(&self, col: i32) -> (r: i32)
        requires
            0 <= col < self.row.deep_view().len(),
        ensures
            r >= 0,
            ({
                let l = byte_len_of(self.row.deep_view()[col as int]);
                if l > i32::MAX as int {
                    r == i32::MAX
                } else {
                    r as int == l
                }
            }),
    {
        match &self.row[col as usize] {
            Cell::Blob(b) => {
                let l = b.len();
                if l > i32::MAX as usize {
                    i32::MAX
                } else {
                    l as i32
                }
            },
            _ => 0,
        }
    }
}

} // verus!
