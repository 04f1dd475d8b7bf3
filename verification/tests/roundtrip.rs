use sqlite_types::data::{
    Cell, SQLITE_BLOB, SQLITE_NULL, SQLITE_OK, SQLITE_RANGE, SQLITE_TEXT,
};
use sqlite_types::stmt::Statement;
use sqlite_types::types::{FromSql, Null, ToSql};

/// Binds `value` into a fresh one-parameter statement and returns a query
/// statement stepped onto the single stored row.
fn round_trip<T: ToSql>(value: &T) -> Statement {
    let mut ins = Statement::with_params(1);
    assert_eq!(value.bind_parameter(&mut ins, 1), SQLITE_OK);
    let mut stmt = Statement::with_rows(vec![ins.into_row()]);
    assert!(stmt.step());
    stmt
}

#[test]
fn blob_empty_round_trip() {
    let b: Vec<u8> = vec![];
    let stmt = round_trip(&b);
    let out: Vec<u8> = FromSql::column_result(&stmt, 0);
    assert_eq!(out, b);
}

#[test]
fn blob_single_byte_round_trip() {
    let b: Vec<u8> = vec![0xA5];
    let stmt = round_trip(&b);
    let out: Vec<u8> = FromSql::column_result(&stmt, 0);
    assert_eq!(out, vec![0xA5]);
}

#[test]
fn blob_slice_round_trip() {
    let b: &[u8] = &[9u8, 8, 7];
    let stmt = round_trip(&b);
    let out: Vec<u8> = FromSql::column_result(&stmt, 0);
    assert_eq!(out, vec![9u8, 8, 7]);
    assert_eq!(stmt.column_type(0), SQLITE_BLOB);
    assert_eq!(stmt.column_bytes(0), 3);
}

#[test]
fn text_empty_round_trip() {
    let s = String::new();
    let stmt = round_trip(&s);
    let out: String = FromSql::column_result(&stmt, 0);
    assert_eq!(out, "");
}

#[test]
fn text_multibyte_round_trip() {
    let s = "gr\u{00fc}\u{00df} \u{4e16}\u{754c} \u{1f680}".to_string();
    let stmt = round_trip(&s);
    let out: String = FromSql::column_result(&stmt, 0);
    assert_eq!(out, s);
    assert_eq!(stmt.column_type(0), SQLITE_TEXT);
}

#[test]
fn str_round_trip() {
    let s = "plain";
    let stmt = round_trip(&s);
    let out: String = FromSql::column_result(&stmt, 0);
    assert_eq!(out, "plain");
}

#[test]
fn int_round_trip() {
    let v: i32 = -123456;
    let stmt = round_trip(&v);
    let out: i32 = FromSql::column_result(&stmt, 0);
    assert_eq!(out, -123456);
}

#[test]
fn int64_round_trip() {
    let v: i64 = i64::MIN + 1;
    let stmt = round_trip(&v);
    let out: i64 = FromSql::column_result(&stmt, 0);
    assert_eq!(out, i64::MIN + 1);
}

#[test]
fn int32_read_clamps_out_of_range() {
    let big: i64 = i64::MAX;
    let stmt = round_trip(&big);
    let narrow: i32 = FromSql::column_result(&stmt, 0);
    assert_eq!(narrow, i32::MAX);

    let small: i64 = i64::MIN;
    let stmt = round_trip(&small);
    let narrow: i32 = FromSql::column_result(&stmt, 0);
    assert_eq!(narrow, i32::MIN);
}

#[test]
fn optional_null_round_trip() {
    let absent: Option<Vec<u8>> = None;
    let stmt = round_trip(&absent);
    // The dynamic type probe reports null for the bound column.
    assert_eq!(stmt.column_type(0), SQLITE_NULL);
    let out: Option<Vec<u8>> = FromSql::column_result(&stmt, 0);
    assert!(out.is_none());
    let out_text: Option<String> = FromSql::column_result(&stmt, 0);
    assert!(out_text.is_none());
}

#[test]
fn optional_present_round_trip_matches_direct_decode() {
    let v = "present".to_string();
    let stmt = round_trip(&Some(v.clone()));
    let wrapped: Option<String> = FromSql::column_result(&stmt, 0);
    let direct: String = FromSql::column_result(&stmt, 0);
    assert_eq!(wrapped, Some(direct));
    assert_eq!(wrapped, Some(v));
}

#[test]
fn null_sentinel_binds_null() {
    let stmt = round_trip(&Null);
    assert_eq!(stmt.column_type(0), SQLITE_NULL);
    let out: Option<i64> = FromSql::column_result(&stmt, 0);
    assert!(out.is_none());
}

#[test]
fn null_integer_reads_zero() {
    // A non-optional integer read of a null column yields zero — exactly why
    // the optional decoder must probe the storage type first.
    let stmt = round_trip(&Null);
    let out: i64 = FromSql::column_result(&stmt, 0);
    assert_eq!(out, 0);
}

#[test]
fn text_read_of_integer_storage_is_empty() {
    let stmt = round_trip(&42i64);
    let out: String = FromSql::column_result(&stmt, 0);
    assert_eq!(out, "");
}

#[test]
fn bind_out_of_range_reports_range_error() {
    let mut ins = Statement::with_params(1);
    assert_eq!(7i32.bind_parameter(&mut ins, 0), SQLITE_RANGE);
    assert_eq!(7i32.bind_parameter(&mut ins, 2), SQLITE_RANGE);
    assert_eq!(7i32.bind_parameter(&mut ins, 1), SQLITE_OK);
    // The failed binds left the statement untouched: the slot still holds the
    // one successful bind.
    let mut stmt = Statement::with_rows(vec![ins.into_row()]);
    assert!(stmt.step());
    let out: i32 = FromSql::column_result(&stmt, 0);
    assert_eq!(out, 7);
}

#[test]
fn unbound_parameter_is_null() {
    let ins = Statement::with_params(2);
    let mut stmt = Statement::with_rows(vec![ins.into_row()]);
    assert!(stmt.step());
    assert_eq!(stmt.column_type(0), SQLITE_NULL);
    assert_eq!(stmt.column_type(1), SQLITE_NULL);
}

#[test]
fn cursor_preserves_insertion_order() {
    let mut rows: Vec<Vec<Cell>> = Vec::new();
    for v in [10i64, 20, 30] {
        let mut ins = Statement::with_params(1);
        assert_eq!(v.bind_parameter(&mut ins, 1), SQLITE_OK);
        rows.push(ins.into_row());
    }
    let mut stmt = Statement::with_rows(rows);
    for expected in [10i64, 20, 30] {
        assert!(stmt.step());
        let out: i64 = FromSql::column_result(&stmt, 0);
        assert_eq!(out, expected);
    }
    assert!(!stmt.step());
}

#[test]
fn read_column_preserves_insertion_order() {
    let texts = ["a", "bb", "ccc"];
    let mut rows: Vec<Vec<Cell>> = Vec::new();
    for t in texts {
        let mut ins = Statement::with_params(1);
        assert_eq!(t.bind_parameter(&mut ins, 1), SQLITE_OK);
        rows.push(ins.into_row());
    }
    let mut stmt = Statement::with_rows(rows);
    let out: Vec<String> = sqlite_types::types::read_column(&mut stmt, 0);
    assert_eq!(out, vec!["a".to_string(), "bb".to_string(), "ccc".to_string()]);
    assert!(!stmt.step());
}

#[test]
fn step_on_empty_result_set_is_false() {
    let mut stmt = Statement::with_rows(vec![]);
    assert!(!stmt.step());
}

#[test]
fn rebinding_overwrites_slot() {
    let mut ins = Statement::with_params(1);
    assert_eq!("first".bind_parameter(&mut ins, 1), SQLITE_OK);
    assert_eq!("second".bind_parameter(&mut ins, 1), SQLITE_OK);
    let mut stmt = Statement::with_rows(vec![ins.into_row()]);
    assert!(stmt.step());
    let out: String = FromSql::column_result(&stmt, 0);
    assert_eq!(out, "second");
}
