//! The two conversion capabilities of the marshalling layer.
//!
//! [`ToSql`] is what every bindable host type implements: write the value into
//! a 1-based parameter slot of a prepared statement. [`FromSql`] is what every
//! extractable host type implements: materialize an owned host value from a
//! 0-based column of the current result row. The two are independent leaves;
//! each rests only on the statement's primitive binds and reads.
//!
//! Every implementation is resolved at compile time, once per host type; there
//! is no run-time dispatch and no dynamic value type on the host side.

use vstd::prelude::*;

use crate::data::SqlData;
use crate::data::SQLITE_NULL;
use crate::data::integer32_of;
use crate::data::integer_of;
use crate::data::text_of;
use crate::data::blob_of;
use crate::stmt::Statement;
use crate::stmt::bind_outcome;

verus! {

/// The capability of a bindable host type: it has one canonical wire encoding,
/// and binding writes exactly that encoding into the requested slot.
pub trait ToSql {
    /// The canonical wire encoding of this value: the storage the engine holds
    /// once the value is bound.
    spec fn wire(&self) -> SqlData;

    /// Write this value into 1-based parameter slot `col` of `stmt` and return
    /// the engine's status code: success with the slot overwritten by
    /// [`wire`](ToSql::wire) when `col` is in range, the range error with the
    /// statement untouched when it is not. The value is only read, never
    /// consumed, and any buffer it owns is copied before the call returns.
    fn bind_parameter(&self, stmt: &mut Statement, col: i32) -> (r: i32)
        ensures
            bind_outcome(*old(stmt), *final(stmt), col as int, self.wire(), r as int),
    ;
}

/// The capability of an extractable host type: reading column `col` of the
/// current row yields an owned host value standing in the type's decode
/// relation to that column's storage.
pub trait FromSql: Sized {
    /// The decode relation: `self` is the reading of a column whose storage is
    /// `d`. For every implementation this pins the produced value exactly.
    spec fn is_decode_of(&self, d: SqlData) -> bool;

    /// Read column `col` (0-based) of `stmt`'s current row and materialize an
    /// owned value of this type. The caller must have stepped the cursor onto a
    /// row with more than `col` columns; the read itself cannot fail.
    fn column_result(stmt: &Statement, col: i32) -> (r: Self)
        requires
            0 <= col < stmt.row.deep_view().len(),
        ensures
            r.is_decode_of(stmt.row.deep_view()[col as int]),
    ;
}

impl ToSql for i32 {
    open spec fn wire(&self) -> SqlData {
        SqlData::Integer(*self as int)
    }

    fn bind_parameter(&self, stmt: &mut Statement, col: i32) -> (r: i32) {
        stmt.bind_int(col, *self)
    }
}

impl ToSql for i64 {
    open spec fn wire(&self) -> SqlData {
        SqlData::Integer(*self as int)
    }

    fn bind_parameter(&self, stmt: &mut Statement, col: i32) -> (r: i32) {
        stmt.bind_int64(col, *self)
    }
}

impl<'a> ToSql for &'a str {
    open spec fn wire(&self) -> SqlData {
        SqlData::Text(self@)
    }

    fn bind_parameter(&self, stmt: &mut Statement, col: i32) -> (r: i32) {
        stmt.bind_text(col, self)
    }
}

impl ToSql for String {
    open spec fn wire(&self) -> SqlData {
        SqlData::Text(self@)
    }

    fn bind_parameter(&self, stmt: &mut Statement, col: i32) -> (r: i32) {
        stmt.bind_text(col, self.as_str())
    }
}

impl<'a> ToSql for &'a [u8] {
    open spec fn wire(&self) -> SqlData {
        SqlData::Blob(self@)
    }

    fn bind_parameter(&self, stmt: &mut Statement, col: i32) -> (r: i32) {
        stmt.bind_blob(col, self)
    }
}

impl ToSql for Vec<u8> {
    open spec fn wire(&self) -> SqlData {
        SqlData::Blob(self@)
    }

    fn bind_parameter(&self, stmt: &mut Statement, col: i32) -> (r: i32) {
        stmt.bind_blob(col, self.as_slice())
    }
}

/// An absent optional binds as null; a present one binds exactly as its inner
/// value does.
impl<T: ToSql> ToSql for Option<T> {
    open spec fn wire(&self) -> SqlData {
        match self {
            Option::None => SqlData::Null,
            Option::Some(t) => t.wire(),
        }
    }

    fn bind_parameter(&self, stmt: &mut Statement, col: i32) -> (r: i32) {
        match self {
            Option::None => stmt.bind_null(col),
            Option::Some(t) => t.bind_parameter(stmt, col),
        }
    }
}

/// The null sentinel: a zero-sized value whose sole behavior is to bind as
/// null. It has no decode counterpart by design — null is only ever sent, never
/// classified into, except through the optional wrapper.
pub struct Null;

impl ToSql for Null {
    open spec fn wire(&self) -> SqlData {
        SqlData::Null
    }

    fn bind_parameter(&self, stmt: &mut Statement, col: i32) -> (r: i32) {
        stmt.bind_null(col)
    }
}

impl FromSql for i32 {
    open spec fn is_decode_of(&self, d: SqlData) -> bool {
        *self as int == integer32_of(d)
    }

    fn column_result(stmt: &Statement, col: i32) -> (r: i32) {
        stmt.column_int(col)
    }
}

impl FromSql for i64 {
    open spec fn is_decode_of(&self, d: SqlData) -> bool {
        *self as int == integer_of(d)
    }

    fn column_result(stmt: &Statement, col: i32) -> (r: i64) {
        stmt.column_int64(col)
    }
}

impl FromSql for String {
    open spec fn is_decode_of(&self, d: SqlData) -> bool {
        self@ == text_of(d)
    }

    /// A column with no text buffer at all decodes to the empty string rather
    /// than failing. This is a deliberate lenient default, not a null check:
    /// at this accessor the engine cannot tell a null column from an empty
    /// one, and this layer does not second-guess it. Callers that must
    /// distinguish type the column as an optional instead.
    fn column_result(stmt: &Statement, col: i32) -> (r: String) {
        match stmt.column_text(col) {
            Option::None => String::new(),
            Option::Some(s) => s,
        }
    }
}

impl FromSql for Vec<u8> {
    open spec fn is_decode_of(&self, d: SqlData) -> bool {
        self@ == blob_of(d)
    }

    fn column_result(stmt: &Statement, col: i32) -> (r: Vec<u8>) {
        let len = stmt.column_bytes(col);
        // A negative reported length would be an engine contract violation and
        // must fail loudly rather than silently truncate; the statement's
        // contract rules it out, so this check is discharged statically.
        assert(len >= 0);
        match stmt.column_blob(col) {
            Option::None => Vec::new(),
            Option::Some(b) => b,
        }
    }
}

/// Drives the cursor to exhaustion, decoding column `col` of every remaining
/// result row: the values come back in exactly the order the rows are stored,
/// one decode per row, each independent of the others. The caller must keep
/// `col` within every remaining row's column count.
pub fn read_column<T: FromSql>(stmt: &mut Statement, col: i32) -> (out: Vec<T>)
    requires
        0 <= col,
        forall|i: int|
            0 <= i < old(stmt).pending.deep_view().len() ==> col < old(
                stmt,
            ).pending.deep_view()[i].len(),
    ensures
        out@.len() == old(stmt).pending.deep_view().len(),
        forall|i: int|
            0 <= i < out@.len() ==> out@[i].is_decode_of(
                old(stmt).pending.deep_view()[i][col as int],
            ),
        final(stmt).pending.deep_view().len() == 0,
        final(stmt).params.deep_view() == old(stmt).params.deep_view(),
{
    let ghost rows = stmt.pending.deep_view();
    let mut out: Vec<T> = Vec::new();
    loop
        invariant
            0 <= col,
            out@.len() <= rows.len(),
            stmt.pending.deep_view() == rows.skip(out@.len() as int),
            stmt.params.deep_view() == old(stmt).params.deep_view(),
            forall|i: int| 0 <= i < rows.len() ==> col < rows[i].len(),
            forall|i: int| 0 <= i < out@.len() ==> out@[i].is_decode_of(rows[i][col as int]),
        ensures
            out@.len() == rows.len(),
            stmt.pending.deep_view().len() == 0,
            stmt.params.deep_view() == old(stmt).params.deep_view(),
            forall|i: int| 0 <= i < out@.len() ==> out@[i].is_decode_of(rows[i][col as int]),
        decreases rows.len() - out@.len(),
    {
        let has_row = stmt.step();
        if !has_row {
            proof {
                assert(rows.skip(out@.len() as int).len() == 0);
            }
            break;
        }
        proof {
            assert(stmt.row.deep_view() == rows[out@.len() as int]);
        }
        let v = T::column_result(stmt, col);
        out.push(v);
        proof {
            assert(stmt.pending.deep_view() =~= rows.skip(out@.len() as int));
        }
    }
    out
}

/// Probe first, then dispatch: an optional read asks the column's dynamic
/// storage type before touching any typed accessor. Null storage yields absent
/// without invoking the inner decoder at all — a typed read of a null column
/// would yield a default value indistinguishable from genuine data, and only
/// the probe disambiguates. Anything else delegates to the inner type.
impl<T: FromSql> FromSql for Option<T> {
    open spec fn is_decode_of(&self, d: SqlData) -> bool {
        match self {
            Option::None => d is Null,
            Option::Some(v) => !(d is Null) && v.is_decode_of(d),
        }
    }

    fn column_result(stmt: &Statement, col: i32) -> (r: Option<T>) {
        if stmt.column_type(col) == SQLITE_NULL {
            None
        } else {
            Some(T::column_result(stmt, col))
        }
    }
}

} // verus!
