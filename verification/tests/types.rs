use sqlite_types::data::Cell;
use sqlite_types::stmt::Statement;
use sqlite_types::types::{FromSql, ToSql};

/// Runs one single-value insert through the model: bind `value` into a
/// one-parameter statement and hand back the row the engine would store.
fn insert_one<T: ToSql>(value: &T) -> Vec<Cell> {
    let mut ins = Statement::with_params(1);
    assert_eq!(value.bind_parameter(&mut ins, 1), sqlite_types::data::SQLITE_OK);
    ins.into_row()
}

/// A query statement over the given stored rows, stepped onto the first row.
fn query(rows: Vec<Vec<Cell>>) -> Statement {
    let mut stmt = Statement::with_rows(rows);
    assert!(stmt.step());
    stmt
}

#[test]
fn test_blob() {
    let v1234 = vec![1u8, 2, 3, 4];
    let row = insert_one(&v1234);

    let stmt = query(vec![row]);
    let v: Vec<u8> = FromSql::column_result(&stmt, 0);
    assert_eq!(v, v1234);
}

#[test]
fn test_str() {
    let s = "hello, world!";
    let row = insert_one(&s.to_string());

    let stmt = query(vec![row]);
    let from: String = FromSql::column_result(&stmt, 0);
    assert_eq!(from.as_str(), s);
}

#[test]
fn test_option() {
    let s = Some("hello, world!");
    let b = Some(vec![1u8, 2, 3, 4]);

    // Row one binds only the text column, row two only the blob column; the
    // unbound column of each stored row is null. Columns are (text, blob).
    let mut row1 = insert_one(&s);
    row1.push(Cell::Null);
    let mut row2 = insert_one(&b);
    row2.insert(0, Cell::Null);

    let mut stmt = Statement::with_rows(vec![row1, row2]);

    assert!(stmt.step());
    let s1: Option<String> = FromSql::column_result(&stmt, 0);
    let b1: Option<Vec<u8>> = FromSql::column_result(&stmt, 1);
    assert_eq!(s.unwrap(), s1.unwrap());
    assert!(b1.is_none());

    assert!(stmt.step());
    let s2: Option<String> = FromSql::column_result(&stmt, 0);
    let b2: Option<Vec<u8>> = FromSql::column_result(&stmt, 1);
    assert!(s2.is_none());
    assert_eq!(b, b2);
}
