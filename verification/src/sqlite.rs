//! The calls this library makes into `rusqlite` and into std, each behind a
//! trusted item whose contract states what the called code does. What a
//! query answers depends on the database, so these contracts state no rows;
//! they record instead, in ghost fields that only this module writes, which
//! SQL text a statement was prepared from and which row of its answer a
//! fetched row is. The library's queries state their results over these
//! records.

use vstd::prelude::*;
use vstd::utf8::{valid_utf8, decode_utf8};
use rusqlite::types::ValueRef;
use rusqlite::{Connection, Row, Rows, Statement};

use crate::cells::Cell;

verus! {

/// An open SQLite database connection (`rusqlite::Connection`).
#[verifier::external_type_specification]
#[verifier::external_body]
pub struct ExConnection(rusqlite::Connection);

/// An error reported by `rusqlite` or by SQLite (`rusqlite::Error`).
#[verifier::external_type_specification]
#[verifier::external_body]
pub struct ExSqliteError(rusqlite::Error);

/// A prepared SQL statement (`rusqlite::Statement`).
#[verifier::external_type_specification]
#[verifier::external_body]
pub struct ExStatement<'conn>(rusqlite::Statement<'conn>);

/// The rows of a running query (`rusqlite::Rows`).
#[verifier::external_type_specification]
#[verifier::external_body]
pub struct ExRows<'stmt>(rusqlite::Rows<'stmt>);

/// One row of a running query (`rusqlite::Row`).
#[verifier::external_type_specification]
#[verifier::external_body]
pub struct ExRow<'stmt>(rusqlite::Row<'stmt>);

/// A statement prepared from the SQL text `sql()`.
pub struct Prepared<'c> {
    stmt: Statement<'c>,
    sql: Ghost<Seq<char>>,
}

impl<'c> Prepared<'c> {
    pub closed spec fn sql(&self) -> Seq<char> {
        self.sql@
    }
}

/// An error that SQLite or the driver reported for the SQL text `sql()`,
/// while preparing it (`at_prepare()`) or while running it.
pub struct QueryFailure {
    error: rusqlite::Error,
    sql: Ghost<Seq<char>>,
    at_prepare: Ghost<bool>,
}

impl QueryFailure {
    pub closed spec fn error(&self) -> rusqlite::Error {
        self.error
    }

    pub closed spec fn sql(&self) -> Seq<char> {
        self.sql@
    }

    pub closed spec fn at_prepare(&self) -> bool {
        self.at_prepare@
    }

    /// The error that was reported.
    pub fn into_error(self) -> (e: rusqlite::Error)
        ensures
            e == self.error(),
    {
        self.error
    }
}

/// The answer of a running query of the SQL text `sql()`, of which `read()`
/// rows have been fetched.
pub struct RowCursor<'s> {
    rows: Rows<'s>,
    sql: Ghost<Seq<char>>,
    read: Ghost<nat>,
}

impl<'s> RowCursor<'s> {
    pub closed spec fn sql(&self) -> Seq<char> {
        self.sql@
    }

    pub closed spec fn read(&self) -> nat {
        self.read@
    }
}

/// Row `index()` (from 0) of a running answer to the SQL text `sql()`, as
/// the driver holds it until the next row is fetched.
pub struct LiveRow<'a, 's> {
    row: &'a Row<'s>,
    sql: Ghost<Seq<char>>,
    index: Ghost<nat>,
}

impl<'a, 's> LiveRow<'a, 's> {
    pub closed spec fn sql(&self) -> Seq<char> {
        self.sql@
    }

    pub closed spec fn index(&self) -> nat {
        self.index@
    }
}

/// What reading column `column()` of row `row_index()` of an answer to the
/// SQL text `sql()` gave: its value, or `None` where the row has no such
/// column.
pub struct ColumnRead {
    value: Option<Cell>,
    sql: Ghost<Seq<char>>,
    row_index: Ghost<nat>,
    column: Ghost<nat>,
}

impl ColumnRead {
    pub closed spec fn value(&self) -> Option<Cell> {
        self.value
    }

    pub closed spec fn sql(&self) -> Seq<char> {
        self.sql@
    }

    pub closed spec fn row_index(&self) -> nat {
        self.row_index@
    }

    pub closed spec fn column(&self) -> nat {
        self.column@
    }

    /// The value that was read.
    pub fn into_value(self) -> (v: Option<Cell>)
        ensures
            v == self.value(),
    {
        self.value
    }
}

/// `cells` are what reading columns 0, 1, ... of row `index` of an answer
/// to `sql` in turn gave, as the reads `reads` record: at most `width`
/// columns, stopping at the first column the row does not have.
pub open spec fn columns_read(
    sql: Seq<char>,
    index: nat,
    width: nat,
    cells: Seq<Cell>,
    reads: Seq<ColumnRead>,
) -> bool {
    &&& cells.len() <= width
    &&& reads.len() == if cells.len() < width { cells.len() + 1 } else { cells.len() }
    &&& forall|i: int|
        #![trigger reads[i]]
        0 <= i < reads.len() ==> reads[i].sql() == sql && reads[i].row_index() == index && reads[i].column() == i
    &&& forall|i: int| 0 <= i < cells.len() ==> (#[trigger] reads[i]).value() == Some(cells[i])
    &&& cells.len() < width ==> reads[cells.len() as int].value() is None
}

/// Row `index()` (from 0) of an answer to the SQL text `sql()`: the values
/// of its first columns, in order, as `reads()` records reading them.
pub struct FetchedRow {
    cells: Vec<Cell>,
    reads: Ghost<Seq<ColumnRead>>,
    width: Ghost<nat>,
    sql: Ghost<Seq<char>>,
    index: Ghost<nat>,
}

impl FetchedRow {
    pub closed spec fn values(&self) -> Vec<Cell> {
        self.cells
    }

    pub closed spec fn reads(&self) -> Seq<ColumnRead> {
        self.reads@
    }

    pub closed spec fn width(&self) -> nat {
        self.width@
    }

    pub closed spec fn sql(&self) -> Seq<char> {
        self.sql@
    }

    pub closed spec fn index(&self) -> nat {
        self.index@
    }

    /// The row's values are its columns 0, 1, ... read in turn, up to
    /// `width()` columns or to the first column the row does not have.
    pub open spec fn read_in_order(&self) -> bool {
        columns_read(self.sql(), self.index(), self.width(), self.values()@, self.reads())
    }

    /// The values of the row.
    pub fn cells(&self) -> (r: &Vec<Cell>)
        ensures
            *r == self.values(),
    {
        &self.cells
    }
}

/// The end of an answer to the SQL text `sql()`: no row followed the
/// `count()` rows fetched before it.
pub struct RowsEnd {
    sql: Ghost<Seq<char>>,
    count: Ghost<nat>,
}

impl RowsEnd {
    pub closed spec fn sql(&self) -> Seq<char> {
        self.sql@
    }

    pub closed spec fn count(&self) -> nat {
        self.count@
    }
}

/// What stepping a running answer gives.
pub enum Step<'a, 's> {
    Row(LiveRow<'a, 's>),
    End(RowsEnd),
}

/// What fetching the next row of an answer gives.
pub enum Fetch {
    Row(FetchedRow),
    End(RowsEnd),
}

/// Calls `Connection::prepare`, which compiles `sql` against the database.
/// Whether it succeeds depends on the schema on disk; the result records
/// the text it was given.
#[verifier::external_body]
pub(crate) fn prepare<'c>(conn: &'c Connection, sql: &str) -> (r: Result<Prepared<'c>, QueryFailure>)
    ensures
        match r {
            Ok(p) => p.sql() == sql@,
            Err(f) => f.sql() == sql@ && f.at_prepare(),
        },
{
    match conn.prepare(sql) {
        Ok(stmt) => Ok(Prepared { stmt, sql: Ghost(sql@) }),
        Err(error) => Err(QueryFailure { error, sql: Ghost(sql@), at_prepare: Ghost(true) }),
    }
}

/// Calls `Statement::query` with no parameters, which starts running the
/// statement. Whether it succeeds depends on the database; the answer is
/// recorded as one of the statement's text, with no row read yet.
#[verifier::external_body]
pub(crate) fn start_query<'s, 'c>(p: &'s mut Prepared<'c>) -> (r: Result<RowCursor<'s>, QueryFailure>)
    ensures
        final(p).sql() == old(p).sql(),
        match r {
            Ok(c) => c.sql() == old(p).sql() && c.read() == 0,
            Err(f) => f.sql() == old(p).sql() && !f.at_prepare(),
        },
{
    let sql = p.sql;
    match p.stmt.query([]) {
        Ok(rows) => Ok(RowCursor { rows, sql, read: Ghost(0) }),
        Err(error) => Err(QueryFailure { error, sql, at_prepare: Ghost(false) }),
    }
}

/// Calls `Rows::next`, which steps the query to its next row. The row, or
/// the end of the answer, is recorded as the next one of the query's text.
#[verifier::external_body]
pub(crate) fn advance<'a, 's>(cur: &'a mut RowCursor<'s>) -> (r: Result<Step<'a, 's>, QueryFailure>)
    ensures
        final(cur).sql() == old(cur).sql(),
        match r {
            Ok(Step::Row(row)) => {
                &&& row.sql() == old(cur).sql()
                &&& row.index() == old(cur).read()
                &&& final(cur).read() == old(cur).read() + 1
            },
            Ok(Step::End(end)) => end.sql() == old(cur).sql() && end.count() == old(cur).read(),
            Err(f) => f.sql() == old(cur).sql() && !f.at_prepare(),
        },
{
    let (sql, index) = (cur.sql, cur.read);
    match cur.rows.next() {
        Ok(Some(row)) => {
            cur.read = Ghost(index@ + 1);
            Ok(Step::Row(LiveRow { row, sql, index }))
        },
        Ok(None) => Ok(Step::End(RowsEnd { sql, count: index })),
        Err(error) => Err(QueryFailure { error, sql, at_prepare: Ghost(false) }),
    }
}

/// Calls `Row::get_ref` for column `idx` and copies the value it returns
/// into a `Cell`, one variant for each variant of `ValueRef` (a real number
/// is kept without its value). `get_ref` fails only for an index past the
/// row's last column, which gives `None`. The value comes from the
/// database; the result records which column of which row it was read from.
#[verifier::external_body]
pub(crate) fn row_cell(row: &LiveRow<'_, '_>, idx: usize) -> (r: ColumnRead)
    ensures
        r.sql() == row.sql(),
        r.row_index() == row.index(),
        r.column() == idx,
{
    let value = match row.row.get_ref(idx) {
        Ok(ValueRef::Null) => Some(Cell::Null),
        Ok(ValueRef::Integer(i)) => Some(Cell::Integer(i)),
        Ok(ValueRef::Real(_)) => Some(Cell::Real),
        Ok(ValueRef::Text(t)) => Some(Cell::Text(t.to_vec())),
        Ok(ValueRef::Blob(b)) => Some(Cell::Blob(b.to_vec())),
        Err(_) => None,
    };
    ColumnRead { value, sql: row.sql, row_index: row.index, column: Ghost(idx as nat) }
}

/// Reads columns 0, 1, ... of `row` in turn, at most `n` of them, stopping
/// at the first column the row does not have.
pub fn read_row(row: &LiveRow<'_, '_>, n: usize) -> (r: (Vec<Cell>, Ghost<Seq<ColumnRead>>))
    ensures
        columns_read(row.sql(), row.index(), n as nat, r.0@, r.1@),
{
    let mut cells: Vec<Cell> = Vec::new();
    let ghost mut reads: Seq<ColumnRead> = Seq::empty();
    for i in 0..n
        invariant
            cells.len() == i,
            reads.len() == i,
            forall|j: int|
                #![trigger reads[j]]
                0 <= j < i ==> reads[j].sql() == row.sql() && reads[j].row_index() == row.index()
                    && reads[j].column() == j,
            forall|j: int| 0 <= j < i ==> (#[trigger] reads[j]).value() == Some(cells@[j]),
    {
        let read = row_cell(row, i);
        let ghost this = read;
        match read.into_value() {
            Some(c) => {
                cells.push(c);
                proof {
                    reads = reads.push(this);
                }
            },
            None => {
                proof {
                    reads = reads.push(this);
                }
                return (cells, Ghost(reads));
            },
        }
    }
    (cells, Ghost(reads))
}

/// Fetches the next row of a running answer and reads its first `n`
/// columns in turn; or reports the end of the answer, or the driver's error.
pub(crate) fn fetch_row(cur: &mut RowCursor<'_>, n: usize) -> (r: Result<Fetch, QueryFailure>)
    ensures
        final(cur).sql() == old(cur).sql(),
        match r {
            Ok(Fetch::Row(row)) => {
                &&& row.sql() == old(cur).sql()
                &&& row.index() == old(cur).read()
                &&& row.width() == n
                &&& row.read_in_order()
                &&& final(cur).read() == old(cur).read() + 1
            },
            Ok(Fetch::End(end)) => end.sql() == old(cur).sql() && end.count() == old(cur).read(),
            Err(f) => f.sql() == old(cur).sql() && !f.at_prepare(),
        },
{
    match advance(cur) {
        Err(f) => Err(f),
        Ok(Step::End(end)) => Ok(Fetch::End(end)),
        Ok(Step::Row(live)) => {
            let (cells, reads) = read_row(&live, n);
            Ok(Fetch::Row(FetchedRow { cells, reads, width: Ghost(n as nat), sql: live.sql, index: live.index }))
        },
    }
}

/// Calls `String::push`, which appends one character.
#[verifier::external_body]
pub(crate) fn push_char(s: &mut String, c: char)
    ensures
        final(s)@ == old(s)@.push(c),
{
    s.push(c)
}

/// Calls `String::from_utf8`: the bytes become a string exactly when they
/// are valid UTF-8, and the string holds the characters they encode.
#[verifier::external_body]
pub(crate) fn utf8_string(bytes: Vec<u8>) -> (r: Option<String>)
    ensures
        r is Some <==> valid_utf8(bytes@),
        r matches Some(s) ==> s@ == decode_utf8(bytes@),
{
    String::from_utf8(bytes).ok()
}

} // verus!
