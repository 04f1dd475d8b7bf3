//! The engine's dynamic value domain.
//!
//! A column or parameter slot of the engine holds one of the storage classes
//! below. [`Cell`] is the executable representation; [`SqlData`] is its
//! mathematical counterpart used throughout contracts. The numeric constants
//! mirror the engine's own status and storage-class codes.

use vstd::prelude::*;

verus! {

/// Status code a bind primitive returns on success.
pub const SQLITE_OK: i32 = 0;

/// Status code a bind primitive returns when the parameter index is out of
/// range for the statement.
pub const SQLITE_RANGE: i32 = 25;

/// Storage-class code for integer storage.
pub const SQLITE_INTEGER: i32 = 1;

/// Storage-class code for text storage.
pub const SQLITE_TEXT: i32 = 3;

/// Storage-class code for blob storage.
pub const SQLITE_BLOB: i32 = 4;

/// Storage-class code for null storage, as reported by the dynamic type probe.
pub const SQLITE_NULL: i32 = 5;

/// The mathematical model of one stored value: what a parameter slot or a
/// result column holds, independent of how it will be read.
pub enum SqlData {
    Null,
    Integer(int),
    Text(Seq<char>),
    Blob(Seq<u8>),
}

/// One stored value of the engine: the contents of a parameter slot or of a
/// result column. Text and blob cells own their bytes; nothing a cell holds
/// aliases caller memory (the bind primitives copy on entry).
pub enum Cell {
    Null,
    Integer(i64),
    Text(String),
    Blob(Vec<u8>),
}

impl View for Cell {
    type V = SqlData;

    open spec fn view(&self) -> SqlData {
        match self {
            Cell::Null => SqlData::Null,
            Cell::Integer(i) => SqlData::Integer(*i as int),
            Cell::Text(s) => SqlData::Text(s@),
            Cell::Blob(b) => SqlData::Blob(b@),
        }
    }
}

impl DeepView for Cell {
    type V = SqlData;

    open spec fn deep_view(&self) -> SqlData {
        self.view()
    }
}

/// The storage class the dynamic type probe reports for a stored value.
pub open spec fn storage_class(d: SqlData) -> int {
    match d {
        SqlData::Null => SQLITE_NULL as int,
        SqlData::Integer(_) => SQLITE_INTEGER as int,
        SqlData::Text(_) => SQLITE_TEXT as int,
        SqlData::Blob(_) => SQLITE_BLOB as int,
    }
}

/// What a 64-bit integer read yields: integer storage yields its value; the
/// engine reads any other storage class as zero. In particular a null column
/// reads as zero, indistinguishable from a stored zero — only the storage-class
/// probe disambiguates.
pub open spec fn integer_of(d: SqlData) -> int {
    match d {
        SqlData::Integer(i) => i,
        _ => 0,
    }
}

/// What a 32-bit integer read yields: the 64-bit read, clamped to the 32-bit
/// range when it does not fit.
pub open spec fn integer32_of(d: SqlData) -> int {
    let i = integer_of(d);
    if i < i32::MIN as int {
        i32::MIN as int
    } else if i > i32::MAX as int {
        i32::MAX as int
    } else {
        i
    }
}

/// What a text read yields: text storage yields its characters; any other
/// storage class reads as empty text.
pub open spec fn text_of(d: SqlData) -> Seq<char> {
    match d {
        SqlData::Text(s) => s,
        _ => Seq::empty(),
    }
}

/// What a blob read yields: blob storage yields its bytes; any other storage
/// class reads as an empty byte sequence.
pub open spec fn blob_of(d: SqlData) -> Seq<u8> {
    match d {
        SqlData::Blob(b) => b,
        _ => Seq::empty(),
    }
}

/// The byte count the engine reports for a stored value: a blob reports its
/// exact length; other storage classes report zero.
pub open spec fn byte_len_of(d: SqlData) -> int {
    match d {
        SqlData::Blob(b) => b.len() as int,
        _ => 0,
    }
}

} // verus!
