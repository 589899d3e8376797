//! Plain-value model of one SQLite result row and the column decoding rules
//! that read an `i32` or a UTF-8 `String` out of it.

use vstd::prelude::*;
use vstd::utf8::{valid_utf8, decode_utf8};

use crate::sqlite::utf8_string;

verus! {

/// One value of a result row, as SQLite stores it.
/// A real number is kept only as the fact that the column held one: no
/// record of this library reads a real, so decoding one is always a type error.
#[derive(Debug, Clone)]
pub enum Cell {
    Null,
    Integer(i64),
    Real,
    Text(Vec<u8>),
    Blob(Vec<u8>),
}

/// Why a query did not give its records.
#[derive(Debug)]
pub enum DbError {
    /// SQLite itself, or the driver, failed.
    Sqlite(rusqlite::Error),
    /// The row has no column with this index.
    ColumnIndex(usize),
    /// The column holds a value of a type that cannot be read as requested.
    ColumnType(usize),
    /// The column holds an integer that does not fit in an `i32`.
    OutOfRange(usize, i64),
    /// The column holds text that is not valid UTF-8.
    Utf8(usize),
    /// A query that was to give one row gave none.
    NoRow,
}

/// What a record reads out of one column.
#[derive(Debug, Clone, Copy, PartialEq, Eq, Structural)]
pub enum ColumnKind {
    Int,
    Text,
}

/// The `i32` read from column `k` of `row`: the integer, when the column
/// holds an integer in range; an error naming the column otherwise.
pub open spec fn int_column(row: Seq<Cell>, k: usize) -> Result<i32, DbError> {
    if k >= row.len() {
        Err(DbError::ColumnIndex(k))
    } else {
        match row[k as int] {
            Cell::Integer(i) => if i32::MIN <= i <= i32::MAX {
                Ok(i as i32)
            } else {
                Err(DbError::OutOfRange(k, i))
            },
            _ => Err(DbError::ColumnType(k)),
        }
    }
}

/// The text read from column `k` of `row`: the decoded characters, when the
/// column holds valid UTF-8 text; an error naming the column otherwise.
pub open spec fn text_column(row: Seq<Cell>, k: usize) -> Result<Seq<char>, DbError> {
    if k >= row.len() {
        Err(DbError::ColumnIndex(k))
    } else {
        match row[k as int] {
            Cell::Text(bytes) => if valid_utf8(bytes@) {
                Ok(decode_utf8(bytes@))
            } else {
                Err(DbError::Utf8(k))
            },
            _ => Err(DbError::ColumnType(k)),
        }
    }
}

/// Reads column `k` of `row` as an `i32`.
pub fn column_i32(row: &Vec<Cell>, k: usize) -> (r: Result<i32, DbError>)
    ensures
        r == int_column(row@, k),
{
    if k >= row.len() {
        return Err(DbError::ColumnIndex(k));
    }
    match &row[k] {
        Cell::Integer(i) => {
            let i: i64 = *i;
            if i32::MIN as i64 <= i && i <= i32::MAX as i64 {
                Ok(i as i32)
            } else {
                Err(DbError::OutOfRange(k, i))
            }
        },
        _ => Err(DbError::ColumnType(k)),
    }
}

/// Reads column `k` of `row` as a UTF-8 string.
pub fn column_text(row: &Vec<Cell>, k: usize) -> (r: Result<String, DbError>)
    ensures
        match r {
            Ok(s) => text_column(row@, k) == Ok::<Seq<char>, DbError>(s@),
            Err(e) => text_column(row@, k) == Err::<Seq<char>, DbError>(e),
        },
{
    if k >= row.len() {
        return Err(DbError::ColumnIndex(k));
    }
    match &row[k] {
        Cell::Text(bytes) => {
            match utf8_string(bytes.clone()) {
                Some(s) => Ok(s),
                None => Err(DbError::Utf8(k)),
            }
        },
        _ => Err(DbError::ColumnType(k)),
    }
}

} // verus!
