//! The queries of the site, run against an open SQLite connection. What the
//! database holds is not known here, so each query promises what holds of
//! every answer: which SQL text it ran; that its records are what the rows of
//! that text's answer decode to, all of them, in the order they came; and
//! that an error is the driver's error for that text, or the decoding error
//! of the first row that does not decode, after which no row is read.

use vstd::prelude::*;
use rusqlite::Connection;

use crate::cells::{column_i32, int_column, Cell, DbError};
use crate::decode::{EventStanding, RowRecord};
use crate::queries::{
    match_total_query, match_total_sql, match_wins_query, match_wins_sql, player_by_id_query, player_by_id_sql,
    player_sets_query, player_sets_sql, player_standings_query, player_standings_sql, players_by_tag_query,
    players_by_tag_sql, set_total_query, set_total_sql, set_wins_query, set_wins_sql, MOST_MATCHES_SQL,
    RECENT_WINNERS_SQL,
};
use crate::records::{MatchSet, Player, PlayerMetric, Standing};
use crate::rows::{lemma_row_error_is_column_error, row_error};
use crate::sqlite::{fetch_row, prepare, start_query, Fetch, FetchedRow, QueryFailure, RowsEnd};

verus! {

/// The values of the fetched rows `rows`.
pub open spec fn row_values(rows: Seq<FetchedRow>) -> Seq<Vec<Cell>> {
    rows.map_values(|r: FetchedRow| r.values())
}

/// `row` is row `index` of an answer to the SQL text `sql`, and its values
/// are its columns 0, 1, ... read in turn, up to `width` columns.
pub open spec fn row_of(sql: Seq<char>, width: nat, index: int, row: FetchedRow) -> bool {
    &&& row.sql() == sql
    &&& row.index() == index
    &&& row.width() == width
    &&& row.read_in_order()
}

/// `rows` are the first rows, in order, of an answer to the SQL text `sql`,
/// with `width` columns read of each.
pub open spec fn rows_of(sql: Seq<char>, width: nat, rows: Seq<FetchedRow>) -> bool {
    forall|i: int| 0 <= i < rows.len() ==> row_of(sql, width, i, #[trigger] rows[i])
}

/// `rows` are all the rows of an answer to `sql`, which ended at `end`.
pub open spec fn whole_answer(sql: Seq<char>, width: nat, rows: Seq<FetchedRow>, end: RowsEnd) -> bool {
    &&& rows_of(sql, width, rows)
    &&& end.sql() == sql
    &&& end.count() == rows.len()
}

/// `v` is what the rows `rows` decode to as records of type `T`, one for
/// each row, in order.
pub open spec fn records_of<T: RowRecord>(rows: Seq<FetchedRow>, v: Seq<T>) -> bool {
    &&& v.len() == rows.len()
    &&& forall|i: int|
        #![trigger rows[i]]
        0 <= i < rows.len() ==> row_error(rows[i].values()@, T::columns()) is None && v[i]@ == T::of_row(
            rows[i].values()@,
        )
}

/// The records that a query of the SQL text `sql` gives when it succeeds:
/// those of all the rows of an answer to `sql`.
pub open spec fn table_ok<T: RowRecord>(sql: Seq<char>, v: Seq<T>) -> bool {
    exists|rows: Seq<FetchedRow>, end: RowsEnd| whole_answer(sql, T::columns().len(), rows, end) && records_of::<T>(rows, v)
}

/// The errors that a query of `sql`, read as records of type `T`, can give:
/// the driver's error for `sql`, or the decoding error of a row of an answer
/// to `sql` all of whose earlier rows decode.
pub open spec fn table_err<T: RowRecord>(sql: Seq<char>, e: DbError) -> bool {
    &&& e matches DbError::Sqlite(x) ==> exists|f: QueryFailure| f.sql() == sql && f.error() == x
    &&& !(e is Sqlite) ==> exists|rows: Seq<FetchedRow>, out: Seq<T>, bad: FetchedRow| {
        &&& rows_of(sql, T::columns().len(), rows.push(bad))
        &&& records_of::<T>(rows, out)
        &&& row_error(bad.values()@, T::columns()) == Some(e)
    }
}

/// What a query of `sql`, read as records of type `T`, gives.
pub open spec fn table_answer<T: RowRecord>(sql: Seq<char>, r: Result<Vec<T>, DbError>) -> bool {
    match r {
        Ok(v) => table_ok::<T>(sql, v@),
        Err(e) => table_err::<T>(sql, e),
    }
}

/// What a query of `sql` that reads one record of type `T` gives: the
/// record of the first row of an answer to `sql`; or the driver's error for
/// `sql`; `NoRow` when an answer to `sql` had no row; or the decoding error
/// of the first row of an answer to `sql`.
pub open spec fn record_answer<T: RowRecord>(sql: Seq<char>, r: Result<T, DbError>) -> bool {
    match r {
        Ok(x) => exists|row: FetchedRow| {
            &&& row_of(sql, T::columns().len(), 0, row)
            &&& row_error(row.values()@, T::columns()) is None
            &&& x@ == T::of_row(row.values()@)
        },
        Err(e) => {
            &&& e matches DbError::Sqlite(x) ==> exists|f: QueryFailure| f.sql() == sql && f.error() == x
            &&& e is NoRow ==> exists|end: RowsEnd| end.sql() == sql && end.count() == 0
            &&& !(e is Sqlite) && !(e is NoRow) ==> exists|row: FetchedRow| {
                &&& row_of(sql, T::columns().len(), 0, row)
                &&& row_error(row.values()@, T::columns()) == Some(e)
            }
        },
    }
}

/// Runs `sql` and decodes its rows as records of type `T`, reading `ncols`
/// columns of each, one row after the other, stopping at the first row that
/// does not decode.
fn query_table<T: RowRecord>(conn: &Connection, sql: &str, ncols: usize) -> (r: Result<Vec<T>, DbError>)
    requires
        ncols == T::columns().len(),
    ensures
        table_answer::<T>(sql@, r),
{
    let mut p = match prepare(conn, sql) {
        Ok(p) => p,
        Err(f) => return Err(DbError::Sqlite(f.into_error())),
    };
    let mut cur = match start_query(&mut p) {
        Ok(c) => c,
        Err(f) => return Err(DbError::Sqlite(f.into_error())),
    };
    let mut out: Vec<T> = Vec::new();
    let ghost mut rows: Seq<FetchedRow> = Seq::empty();
    loop
        invariant
            cur.sql() == sql@,
            cur.read() == rows.len(),
            rows_of(sql@, ncols as nat, rows),
            ncols == T::columns().len(),
            records_of::<T>(rows, out@),
        decreases usize::MAX - out.len(),
    {
        match fetch_row(&mut cur, ncols) {
            Err(f) => return Err(DbError::Sqlite(f.into_error())),
            Ok(Fetch::End(end)) => {
                assert(whole_answer(sql@, ncols as nat, rows, end) && records_of::<T>(rows, out@));
                return Ok(out);
            },
            Ok(Fetch::Row(row)) => {
                let ghost fetched = row;
                match T::decode_row(row.cells()) {
                    Ok(x) => {
                        out.push(x);
                        proof {
                            rows = rows.push(fetched);
                        }
                    },
                    Err(e) => {
                        proof {
                            lemma_row_error_is_column_error(fetched.values()@, T::columns());
                            assert(rows.push(fetched)[rows.len() as int] == fetched);
                            assert(rows_of(sql@, ncols as nat, rows.push(fetched)));
                        }
                        return Err(e);
                    },
                }
            },
        }
    }
}

/// Runs `sql` and decodes the first row it gives as a record of type `T`,
/// reading `ncols` columns of it.
fn query_record<T: RowRecord>(conn: &Connection, sql: &str, ncols: usize) -> (r: Result<T, DbError>)
    requires
        ncols == T::columns().len(),
    ensures
        record_answer::<T>(sql@, r),
{
    let mut p = match prepare(conn, sql) {
        Ok(p) => p,
        Err(f) => return Err(DbError::Sqlite(f.into_error())),
    };
    let mut cur = match start_query(&mut p) {
        Ok(c) => c,
        Err(f) => return Err(DbError::Sqlite(f.into_error())),
    };
    match fetch_row(&mut cur, ncols) {
        Err(f) => Err(DbError::Sqlite(f.into_error())),
        Ok(Fetch::End(_)) => Err(DbError::NoRow),
        Ok(Fetch::Row(row)) => {
            let r = T::decode_row(row.cells());
            proof {
                lemma_row_error_is_column_error(row.values()@, T::columns());
                assert(row_of(sql@, T::columns().len(), 0, row));
            }
            r
        },
    }
}

/// The players whose tag contains `tag`, ignoring case, and who are not
/// excluded.
pub fn get_players_by_tag(conn: &Connection, tag: &str) -> (r: Result<Vec<Player>, DbError>)
    ensures
        table_answer::<Player>(players_by_tag_sql(tag@), r),
{
    let sql = players_by_tag_query(tag);
    query_table::<Player>(conn, sql.as_str(), 3)
}

/// The player with id `id`; `NoRow` when there is none.
pub fn get_player_by_id(conn: &Connection, id: i32) -> (r: Result<Player, DbError>)
    ensures
        record_answer::<Player>(player_by_id_sql(id), r),
{
    let sql = player_by_id_query(id);
    query_record::<Player>(conn, sql.as_str(), 3)
}

/// The twenty players who played the most games, with that number of games,
/// most first.
pub fn get_most_matches_played(conn: &Connection) -> (r: Result<Vec<PlayerMetric>, DbError>)
    ensures
        table_answer::<PlayerMetric>(MOST_MATCHES_SQL@, r),
{
    query_table::<PlayerMetric>(conn, MOST_MATCHES_SQL, 4)
}

/// What one metric query of a player's page gave.
pub enum MetricAnswer {
    /// The query could be prepared but failed while running.
    Failed(QueryFailure),
    /// The query's answer had no row.
    Empty(RowsEnd),
    /// The first row of the query's answer.
    First(FetchedRow),
}

/// `a` is what a metric query of the SQL text `sql` gave, once prepared.
pub open spec fn answers_metric(a: MetricAnswer, sql: Seq<char>) -> bool {
    match a {
        MetricAnswer::Failed(f) => f.sql() == sql && !f.at_prepare(),
        MetricAnswer::Empty(end) => end.sql() == sql && end.count() == 0,
        MetricAnswer::First(row) => row_of(sql, 1, 0, row),
    }
}

/// The integer in the first column of `cells`, or 0 where there is none.
pub open spec fn first_int_or_zero(cells: Seq<Cell>) -> i32 {
    match int_column(cells, 0) {
        Ok(v) => v,
        Err(_) => 0,
    }
}

/// The value a metric query gives: the integer of its first row's first
/// column, or 0 when the query fails while running, has no row, or that
/// column is not an `i32` (a sum over no sets is NULL, so it reads 0).
pub open spec fn metric_value(a: MetricAnswer) -> i32 {
    match a {
        MetricAnswer::First(row) => first_int_or_zero(row.values()@),
        _ => 0,
    }
}

/// The integer in the first column of `cells`, 0 where there is none.
pub fn first_column_or_zero(cells: &Vec<Cell>) -> (v: i32)
    ensures
        v == first_int_or_zero(cells@),
{
    match column_i32(cells, 0) {
        Ok(v) => v,
        Err(_) => 0,
    }
}

/// The value of a metric query's answer.
pub fn metric_of(a: &MetricAnswer) -> (v: i32)
    ensures
        v == metric_value(*a),
{
    match a {
        MetricAnswer::First(row) => first_column_or_zero(row.cells()),
        _ => 0,
    }
}

/// Runs the metric query `sql`: an error only when it cannot be prepared;
/// otherwise what its run gave, reading the first row only.
fn query_metric(conn: &Connection, sql: &str) -> (r: Result<MetricAnswer, QueryFailure>)
    ensures
        match r {
            Ok(a) => answers_metric(a, sql@),
            Err(f) => f.sql() == sql@ && f.at_prepare(),
        },
{
    let mut p = prepare(conn, sql)?;
    let mut cur = match start_query(&mut p) {
        Ok(c) => c,
        Err(f) => return Ok(MetricAnswer::Failed(f)),
    };
    match fetch_row(&mut cur, 1) {
        Err(f) => Ok(MetricAnswer::Failed(f)),
        Ok(Fetch::End(end)) => Ok(MetricAnswer::Empty(end)),
        Ok(Fetch::Row(row)) => Ok(MetricAnswer::First(row)),
    }
}

/// The metrics that four metric answers give, in the order they are given:
/// sets won, sets played, games won, games played.
pub open spec fn metrics_of(
    set_wins: MetricAnswer,
    set_total: MetricAnswer,
    games_won: MetricAnswer,
    games_played: MetricAnswer,
) -> Seq<i32> {
    seq![metric_value(set_wins), metric_value(set_total), metric_value(games_won), metric_value(games_played)]
}

/// `v` is the metric that the answer `a` of a metric query stands for: the
/// integer in the first column of the query's first row, or 0 when the query
/// failed while running, had no row, or that column holds no `i32`.
pub open spec fn gives_metric(a: MetricAnswer, v: i32) -> bool {
    match a {
        MetricAnswer::First(row) => {
            let cells = row.values()@;
            if cells.len() > 0 {
                match cells[0] {
                    Cell::Integer(i) => if i32::MIN <= i <= i32::MAX {
                        v == i
                    } else {
                        v == 0
                    },
                    _ => v == 0,
                }
            } else {
                v == 0
            }
        },
        _ => v == 0,
    }
}

/// A player's metrics are four numbers, sets won, sets played, games won,
/// games played, and each is what its own query gave, whatever the other
/// three gave: a player who won no set but took games has games won above 0.
pub proof fn law_metric_slots(a0: MetricAnswer, a1: MetricAnswer, a2: MetricAnswer, a3: MetricAnswer)
    ensures
        ({
            let m = metrics_of(a0, a1, a2, a3);
            &&& m.len() == 4
            &&& gives_metric(a0, m[0])
            &&& gives_metric(a1, m[1])
            &&& gives_metric(a2, m[2])
            &&& gives_metric(a3, m[3])
        }),
{
}

/// Builds a player's metrics from the answers of the four metric queries.
pub fn metrics_vector(
    set_wins: &MetricAnswer,
    set_total: &MetricAnswer,
    games_won: &MetricAnswer,
    games_played: &MetricAnswer,
) -> (v: Vec<i32>)
    ensures
        v@ == metrics_of(*set_wins, *set_total, *games_won, *games_played),
{
    let v = vec![metric_of(set_wins), metric_of(set_total), metric_of(games_won), metric_of(games_played)];
    assert(v@ =~= metrics_of(*set_wins, *set_total, *games_won, *games_played));
    v
}

/// The metrics of player `id`: sets won, sets played, games won, games
/// played, in that order, each what its own query gave (0 where that query
/// failed while running, had no row, or gave no `i32`). The whole fails
/// only when one of the four queries cannot be prepared.
pub fn get_player_metrics(conn: &Connection, id: i32) -> (r: Result<Vec<i32>, DbError>)
    ensures
        r matches Ok(v) ==> exists|a0: MetricAnswer, a1: MetricAnswer, a2: MetricAnswer, a3: MetricAnswer| {
            &&& answers_metric(a0, set_wins_sql(id))
            &&& answers_metric(a1, set_total_sql(id))
            &&& answers_metric(a2, match_wins_sql(id))
            &&& answers_metric(a3, match_total_sql(id))
            &&& v@ == metrics_of(a0, a1, a2, a3)
        },
        r matches Err(e) ==> exists|f: QueryFailure| {
            &&& f.at_prepare()
            &&& e == DbError::Sqlite(f.error())
            &&& f.sql() == set_wins_sql(id) || f.sql() == set_total_sql(id) || f.sql() == match_wins_sql(id)
                || f.sql() == match_total_sql(id)
        },
{
    let q = set_wins_query(id);
    let a0 = match query_metric(conn, q.as_str()) {
        Ok(a) => a,
        Err(f) => return Err(DbError::Sqlite(f.into_error())),
    };
    let q = set_total_query(id);
    let a1 = match query_metric(conn, q.as_str()) {
        Ok(a) => a,
        Err(f) => return Err(DbError::Sqlite(f.into_error())),
    };
    let q = match_wins_query(id);
    let a2 = match query_metric(conn, q.as_str()) {
        Ok(a) => a,
        Err(f) => return Err(DbError::Sqlite(f.into_error())),
    };
    let q = match_total_query(id);
    let a3 = match query_metric(conn, q.as_str()) {
        Ok(a) => a,
        Err(f) => return Err(DbError::Sqlite(f.into_error())),
    };
    let v = metrics_vector(&a0, &a1, &a2, &a3);
    assert(answers_metric(a0, set_wins_sql(id)));
    Ok(v)
}

/// The fifteen most recent top-three placements at events with at least
/// forty entrants, most recent event first, then by placement.
pub fn get_recent_winners(conn: &Connection) -> (r: Result<Vec<Standing>, DbError>)
    ensures
        table_answer::<Standing>(RECENT_WINNERS_SQL@, r),
{
    query_table::<Standing>(conn, RECENT_WINNERS_SQL, 6)
}

/// A copy of a standing.
fn copy_standing(s: &Standing) -> (r: Standing)
    ensures
        r == *s,
{
    Standing {
        placement: s.placement,
        tournament_name: s.tournament_name.clone(),
        event_slug: s.event_slug.clone(),
        player_id: s.player_id,
        player_tag: s.player_tag.clone(),
        player_prefix: s.player_prefix.clone(),
    }
}

/// The twenty most recent standings of player `id`. The player fields of
/// each are left empty: id 0, no tag, no prefix.
pub fn get_player_standings(conn: &Connection, id: i32) -> (r: Result<Vec<Standing>, DbError>)
    ensures
        r matches Ok(v) ==> exists|w: Seq<EventStanding>| {
            &&& table_ok::<EventStanding>(player_standings_sql(id), w)
            &&& w.len() == v.len()
            &&& forall|i: int| 0 <= i < w.len() ==> (#[trigger] w[i]).0 == v[i]
        },
        r matches Err(e) ==> table_err::<EventStanding>(player_standings_sql(id), e),
        r matches Ok(v) ==> forall|i: int| 0 <= i < v.len() ==> {
            &&& (#[trigger] v[i]).player_id == 0
            &&& v[i].player_tag@.len() == 0
            &&& v[i].player_prefix@.len() == 0
        },
{
    let sql = player_standings_query(id);
    let w = query_table::<EventStanding>(conn, sql.as_str(), 3)?;
    let ghost ws = w@;
    let mut out: Vec<Standing> = Vec::new();
    for i in 0..w.len()
        invariant
            w@ == ws,
            out.len() == i,
            forall|j: int| 0 <= j < i ==> (#[trigger] ws[j]).0 == out[j],
    {
        out.push(copy_standing(&w[i].0));
    }
    proof {
        assert(table_ok::<EventStanding>(player_standings_sql(id), ws));
        let (rows, end) = choose|rows: Seq<FetchedRow>, end: RowsEnd|
            whole_answer(player_standings_sql(id), 3, rows, end) && records_of::<EventStanding>(rows, ws);
        assert forall|i: int| 0 <= i < out.len() implies {
            &&& (#[trigger] out[i]).player_id == 0
            &&& out[i].player_tag@.len() == 0
            &&& out[i].player_prefix@.len() == 0
        } by {
            assert(ws[i].0 == out[i]);
            assert(ws[i]@ == EventStanding::of_row(rows[i].values()@));
        }
    }
    Ok(out)
}

/// The sets that player `id` played, latest first.
pub fn get_player_sets(conn: &Connection, id: i32) -> (r: Result<Vec<MatchSet>, DbError>)
    ensures
        table_answer::<MatchSet>(player_sets_sql(id), r),
{
    let sql = player_sets_query(id);
    query_table::<MatchSet>(conn, sql.as_str(), 14)
}

} // verus!
