//! Decoding of whole rows and of whole result tables. A row decodes when
//! every column that the record reads decodes; otherwise the error is that of
//! the first column that does not. A table decodes when every row does;
//! otherwise the error is that of the first row that does not.

use vstd::prelude::*;

use vstd::utf8::{decode_utf8, valid_utf8};

use crate::cells::{column_i32, column_text, int_column, text_column, Cell, ColumnKind, DbError};

verus! {

/// A decoded column value.
#[derive(Debug)]
pub enum ColumnValue {
    Int(i32),
    Text(String),
}

/// Whether column `k` of `row` can be read as `kind`.
pub open spec fn column_ok(row: Seq<Cell>, k: usize, kind: ColumnKind) -> bool {
    match kind {
        ColumnKind::Int => int_column(row, k) is Ok,
        ColumnKind::Text => text_column(row, k) is Ok,
    }
}

/// The error of reading column `k` of `row` as `kind`, when it fails.
pub open spec fn column_error(row: Seq<Cell>, k: usize, kind: ColumnKind) -> DbError {
    match kind {
        ColumnKind::Int => int_column(row, k)->Err_0,
        ColumnKind::Text => text_column(row, k)->Err_0,
    }
}

/// Column `k` is the first column of `kinds` that `row` cannot give.
pub open spec fn first_bad_column(row: Seq<Cell>, kinds: Seq<ColumnKind>, k: usize) -> bool {
    &&& k < kinds.len()
    &&& !column_ok(row, k, kinds[k as int])
    &&& forall|j: usize| j < k ==> #[trigger] column_ok(row, j, kinds[j as int])
}

/// The error of reading `row` with the column kinds `kinds`: that of the
/// first column that fails, or none.
pub open spec fn row_error(row: Seq<Cell>, kinds: Seq<ColumnKind>) -> Option<DbError> {
    if exists|k: usize| first_bad_column(row, kinds, k) {
        let k = choose|k: usize| first_bad_column(row, kinds, k);
        Some(column_error(row, k, kinds[k as int]))
    } else {
        None
    }
}

/// The integer of column `k` (meaningful when it decodes).
pub open spec fn int_value(row: Seq<Cell>, k: usize) -> i32 {
    match int_column(row, k) {
        Ok(v) => v,
        Err(_) => 0,
    }
}

/// The text of column `k` (meaningful when it decodes).
pub open spec fn text_value(row: Seq<Cell>, k: usize) -> Seq<char> {
    match text_column(row, k) {
        Ok(v) => v,
        Err(_) => Seq::empty(),
    }
}

/// `v` is what column `k` of `row` decodes to as `kind`.
pub open spec fn value_is(v: ColumnValue, row: Seq<Cell>, k: usize, kind: ColumnKind) -> bool {
    match kind {
        ColumnKind::Int => v == ColumnValue::Int(int_value(row, k)),
        ColumnKind::Text => v matches ColumnValue::Text(s) && s@ == text_value(row, k),
    }
}

proof fn lemma_row_error_at(row: Seq<Cell>, kinds: Seq<ColumnKind>, k: usize)
    requires
        k < kinds.len(),
        !column_ok(row, k, kinds[k as int]),
        forall|j: usize| j < k ==> #[trigger] column_ok(row, j, kinds[j as int]),
    ensures
        row_error(row, kinds) == Some(column_error(row, k, kinds[k as int])),
{
    assert(first_bad_column(row, kinds, k));
    let w = choose|w: usize| first_bad_column(row, kinds, w);
    assert(first_bad_column(row, kinds, w));
    if w < k {
        assert(column_ok(row, w, kinds[w as int]));
    }
    if k < w {
        assert(column_ok(row, k, kinds[k as int]));
    }
    assert(w == k);
}

/// A row's error is always one of a column: never a driver error, never a
/// missing row.
pub proof fn lemma_row_error_is_column_error(row: Seq<Cell>, kinds: Seq<ColumnKind>)
    ensures
        row_error(row, kinds) matches Some(e) ==> !(e is Sqlite) && !(e is NoRow),
{
    if exists|k: usize| first_bad_column(row, kinds, k) {
        let k = choose|k: usize| first_bad_column(row, kinds, k);
        assert(first_bad_column(row, kinds, k));
    }
}

/// Column `k` of `row` holds the integer `v`.
pub open spec fn holds_int(row: Seq<Cell>, k: int, v: i32) -> bool {
    &&& 0 <= k < row.len()
    &&& row[k] matches Cell::Integer(i) && i == v
}

/// Column `k` of `row` holds UTF-8 text that spells `s`.
pub open spec fn holds_text(row: Seq<Cell>, k: int, s: Seq<char>) -> bool {
    &&& 0 <= k < row.len()
    &&& row[k] matches Cell::Text(b) && valid_utf8(b@) && decode_utf8(b@) == s
}

proof fn lemma_some_first_bad(row: Seq<Cell>, kinds: Seq<ColumnKind>, k: usize)
    requires
        k < kinds.len(),
        !column_ok(row, k, kinds[k as int]),
    ensures
        exists|j: usize| first_bad_column(row, kinds, j),
    decreases k,
{
    if forall|j: usize| j < k ==> #[trigger] column_ok(row, j, kinds[j as int]) {
        assert(first_bad_column(row, kinds, k));
    } else {
        let j = choose|j: usize| j < k && !#[trigger] column_ok(row, j, kinds[j as int]);
        lemma_some_first_bad(row, kinds, j);
    }
}

/// A row that decodes with `kinds` gives every one of those columns: an
/// integer in range for an integer column, valid UTF-8 text for a text
/// column, and the decoded values are what the columns hold.
pub proof fn lemma_decoded_columns(row: Seq<Cell>, kinds: Seq<ColumnKind>)
    requires
        row_error(row, kinds) is None,
    ensures
        forall|k: usize| #![trigger kinds[k as int]] k < kinds.len() ==> column_ok(row, k, kinds[k as int]),
        forall|k: usize|
            k < kinds.len() && kinds[k as int] == ColumnKind::Int ==> holds_int(row, k as int, #[trigger] int_value(row, k)),
        forall|k: usize|
            k < kinds.len() && kinds[k as int] == ColumnKind::Text ==> holds_text(row, k as int, #[trigger] text_value(row, k)),
{
    assert forall|k: usize| #![trigger kinds[k as int]] k < kinds.len() implies column_ok(row, k, kinds[k as int]) by {
        if !column_ok(row, k, kinds[k as int]) {
            lemma_some_first_bad(row, kinds, k);
        }
    }
    assert forall|k: usize|
        k < kinds.len() && kinds[k as int] == ColumnKind::Int implies holds_int(row, k as int, #[trigger] int_value(row, k)) by {
        assert(column_ok(row, k, kinds[k as int]));
    }
    assert forall|k: usize|
        k < kinds.len() && kinds[k as int] == ColumnKind::Text implies holds_text(row, k as int, #[trigger] text_value(row, k)) by {
        assert(column_ok(row, k, kinds[k as int]));
    }
}

proof fn lemma_row_ok(row: Seq<Cell>, kinds: Seq<ColumnKind>)
    requires
        forall|j: usize| j < kinds.len() ==> #[trigger] column_ok(row, j, kinds[j as int]),
    ensures
        row_error(row, kinds) is None,
{
    if exists|k: usize| first_bad_column(row, kinds, k) {
        let k = choose|k: usize| first_bad_column(row, kinds, k);
        assert(column_ok(row, k, kinds[k as int]));
    }
}

/// Reads the columns `kinds` of `row`, in order, stopping at the first that
/// fails.
pub fn decode_columns(row: &Vec<Cell>, kinds: &Vec<ColumnKind>) -> (r: Result<Vec<ColumnValue>, DbError>)
    ensures
        match r {
            Ok(vals) => {
                &&& row_error(row@, kinds@) is None
                &&& vals.len() == kinds.len()
                &&& forall|j: int| 0 <= j < vals.len() ==> value_is(#[trigger] vals[j], row@, j as usize, kinds@[j])
            },
            Err(e) => row_error(row@, kinds@) == Some(e),
        },
{
    let mut vals: Vec<ColumnValue> = Vec::new();
    for i in 0..kinds.len()
        invariant
            vals.len() == i,
            forall|j: usize| j < i ==> #[trigger] column_ok(row@, j, kinds@[j as int]),
            forall|j: int| 0 <= j < vals.len() ==> value_is(#[trigger] vals[j], row@, j as usize, kinds@[j]),
    {
        match kinds[i] {
            ColumnKind::Int => match column_i32(row, i) {
                Ok(v) => {
                    vals.push(ColumnValue::Int(v));
                },
                Err(e) => {
                    proof {
                        lemma_row_error_at(row@, kinds@, i);
                    }
                    return Err(e);
                },
            },
            ColumnKind::Text => match column_text(row, i) {
                Ok(s) => {
                    vals.push(ColumnValue::Text(s));
                },
                Err(e) => {
                    proof {
                        lemma_row_error_at(row@, kinds@, i);
                    }
                    return Err(e);
                },
            },
        }
    }
    proof {
        lemma_row_ok(row@, kinds@);
    }
    Ok(vals)
}

/// The integer held by `vals[k]`.
pub fn int_at(vals: &Vec<ColumnValue>, k: usize) -> (r: i32)
    requires
        k < vals.len(),
        vals[k as int] is Int,
    ensures
        vals[k as int] == ColumnValue::Int(r),
{
    match &vals[k] {
        ColumnValue::Int(v) => *v,
        ColumnValue::Text(_) => 0,
    }
}

/// A copy of the text held by `vals[k]`.
pub fn text_at(vals: &Vec<ColumnValue>, k: usize) -> (r: String)
    requires
        k < vals.len(),
        vals[k as int] is Text,
    ensures
        vals[k as int] matches ColumnValue::Text(s) && r@ == s@,
{
    match &vals[k] {
        ColumnValue::Text(s) => s.clone(),
        ColumnValue::Int(_) => String::new(),
    }
}

} // verus!
