use bracket_stats::cells::{Cell, DbError};
use bracket_stats::store::{
    get_most_matches_played, get_player_by_id, get_player_metrics, get_player_sets, get_player_standings,
    first_column_or_zero, get_players_by_tag, get_recent_winners,
};
use rusqlite::Connection;

fn sample_db() -> Connection {
    let conn = Connection::open_in_memory().unwrap();
    conn.execute_batch(
        "
        create table player (id integer primary key, tag text, prefix text, exclude integer);
        create table event (id integer primary key, name text, tournament_name text, slug text, start integer);
        create table standing (event_id integer, player_id integer, placement integer);
        create table sets (id integer primary key, event_id integer, round text,
                           win_id integer, win_score integer, lose_id integer, lose_score integer);
        insert into player values (1, 'Mango', 'C9', 0);
        insert into player values (2, 'Zain', '', 0);
        insert into player values (3, 'mangoFan', 'x', 0);
        insert into player values (4, 'MangoAlt', '', 1);
        insert into player values (5, 'Lonely', '', 0);
        insert into event values (10, 'Singles', 'Genesis', 'genesis', 100);
        insert into event values (11, 'Singles', 'Big House', 'big-house', 200);
        insert into standing values (10, 1, 1);
        insert into standing values (10, 2, 2);
        insert into standing values (11, 2, 1);
        insert into sets values (100, 10, 'Winners Final', 1, 3, 2, 1);
        insert into sets values (101, 10, 'Grand Final', 2, 3, 1, 2);
        insert into sets values (102, 11, 'Pools', 1, 2, 3, 0);
        ",
    )
    .unwrap();
    conn
}

#[test]
fn tag_search_ignores_case_and_excluded() {
    let conn = sample_db();
    let mut ps = get_players_by_tag(&conn, "MANGO").ok().unwrap();
    ps.sort_by_key(|p| p.id);
    let ids: Vec<i32> = ps.iter().map(|p| p.id).collect();
    assert_eq!(ids, vec![1, 3]);
    assert_eq!(ps[0].tag, "Mango");
    assert_eq!(ps[0].prefix, "C9");
    assert!(get_players_by_tag(&conn, "nobody").ok().unwrap().is_empty());
}

#[test]
fn player_by_id_found_and_missing() {
    let conn = sample_db();
    let p = get_player_by_id(&conn, 2).ok().unwrap();
    assert_eq!((p.id, p.tag.as_str(), p.prefix.as_str()), (2, "Zain", ""));
    assert!(matches!(
        get_player_by_id(&conn, 99),
        Err(DbError::NoRow)
    ));
}

#[test]
fn metrics_of_a_player() {
    let conn = sample_db();
    // Mango: won sets 100 and 102, played 100, 101, 102;
    // games won 3 + 2 + 2 = 7, games played 4 + 5 + 2 = 11.
    assert_eq!(get_player_metrics(&conn, 1).ok().unwrap(), vec![2, 3, 7, 11]);
    // Zain: won 101, played 100 and 101; games won 1 + 3, played 4 + 5.
    assert_eq!(get_player_metrics(&conn, 2).ok().unwrap(), vec![1, 2, 4, 9]);
}

#[test]
fn metrics_of_a_player_without_sets_read_zero() {
    let conn = sample_db();
    // The sums over no sets are NULL, which read as 0.
    assert_eq!(get_player_metrics(&conn, 5).ok().unwrap(), vec![0, 0, 0, 0]);
}

#[test]
fn metric_value_rules() {
    assert_eq!(first_column_or_zero(&vec![Cell::Integer(12)]), 12);
    assert_eq!(first_column_or_zero(&vec![Cell::Integer(12), Cell::Null]), 12);
    assert_eq!(first_column_or_zero(&vec![Cell::Null]), 0);
    assert_eq!(first_column_or_zero(&vec![Cell::Integer(1 << 33)]), 0);
    assert_eq!(first_column_or_zero(&vec![]), 0);
}

#[test]
fn metrics_fail_without_tables() {
    let conn = Connection::open_in_memory().unwrap();
    assert!(matches!(get_player_metrics(&conn, 1), Err(DbError::Sqlite(_))));
}

#[test]
fn most_matches_ranks_by_games_played() {
    let conn = sample_db();
    let ms = get_most_matches_played(&conn).ok().unwrap();
    let top: Vec<(i32, i32)> = ms.iter().map(|m| (m.id, m.metric)).collect();
    assert_eq!(top, vec![(1, 11), (2, 9), (3, 2)]);
    assert_eq!(ms[0].tag, "Mango");
}

#[test]
fn recent_winners_need_large_events() {
    let conn = sample_db();
    // No event here has forty entrants.
    assert!(get_recent_winners(&conn).ok().unwrap().is_empty());
    for p in 0..40 {
        conn.execute(&format!("insert into standing values (11, {}, {})", 1000 + p, 10 + p), []).unwrap();
    }
    let w = get_recent_winners(&conn).ok().unwrap();
    assert_eq!(w.len(), 1);
    assert_eq!(w[0].placement, 1);
    assert_eq!(w[0].tournament_name, "Big House");
    assert_eq!(w[0].event_slug, "big-house");
    assert_eq!(w[0].player_id, 2);
    assert_eq!(w[0].player_tag, "Zain");
}

#[test]
fn standings_of_a_player() {
    let conn = sample_db();
    let s = get_player_standings(&conn, 2).ok().unwrap();
    let got: Vec<(i32, String)> = s.iter().map(|st| (st.placement, st.tournament_name.clone())).collect();
    assert_eq!(got, vec![(1, "Big House".to_string()), (2, "Genesis".to_string())]);
    assert!(s.iter().all(|st| st.player_id == 0 && st.player_tag.is_empty() && st.player_prefix.is_empty()));
}

#[test]
fn sets_of_a_player_latest_first() {
    let conn = sample_db();
    let s = get_player_sets(&conn, 1).ok().unwrap();
    let ids: Vec<i32> = s.iter().map(|x| x.id).collect();
    assert_eq!(ids, vec![102, 101, 100]);
    assert_eq!(s[0].event_slug, "big-house");
    assert_eq!(s[0].loser_tag, "mangoFan");
    assert_eq!(s[1].winner_tag, "Zain");
    assert_eq!(s[1].loser_score, 2);
    assert_eq!(s[2].round, "Winners Final");
}

#[test]
fn bad_column_type_is_reported() {
    let conn = sample_db();
    conn.execute("insert into player values (6, NULL, '', 0)", []).unwrap();
    assert!(matches!(get_player_by_id(&conn, 6), Err(DbError::ColumnType(1))));
}

#[test]
fn real_and_blob_values_are_type_errors() {
    // Columns declared without a type keep the storage class of each value.
    let conn = Connection::open_in_memory().unwrap();
    conn.execute_batch("create table player (id integer primary key, tag, prefix, exclude);").unwrap();
    conn.execute("insert into player values (7, 'r', 1.5, 0)", []).unwrap();
    assert!(matches!(get_player_by_id(&conn, 7), Err(DbError::ColumnType(2))));
    conn.execute("insert into player values (8, x'ff00', '', 0)", []).unwrap();
    assert!(matches!(get_player_by_id(&conn, 8), Err(DbError::ColumnType(1))));
}

#[test]
fn invalid_utf8_text_is_reported() {
    let conn = sample_db();
    conn.execute("insert into player values (9, cast(x'ff' as text), '', 0)", []).unwrap();
    assert!(matches!(get_player_by_id(&conn, 9), Err(DbError::Utf8(1))));
}

#[test]
fn missing_table_is_an_sqlite_error() {
    let conn = Connection::open_in_memory().unwrap();
    assert!(matches!(get_players_by_tag(&conn, "a"), Err(DbError::Sqlite(_))));
    assert!(matches!(get_player_sets(&conn, 1), Err(DbError::Sqlite(_))));
}

#[test]
fn metrics_of_two_sets() {
    let conn = Connection::open_in_memory().unwrap();
    conn.execute_batch(
        "
        create table sets (id integer primary key, win_id integer, lose_id integer,
                           win_score integer, lose_score integer);
        insert into sets values (1, 1, 2, 3, 1);
        insert into sets values (2, 2, 1, 3, 2);
        ",
    )
    .unwrap();
    assert_eq!(get_player_metrics(&conn, 1).ok().unwrap(), vec![1, 2, 5, 9]);
}

#[test]
fn metrics_over_an_empty_table_are_zero() {
    let conn = Connection::open_in_memory().unwrap();
    conn.execute_batch(
        "create table sets (id integer primary key, win_id integer, lose_id integer,
                            win_score integer, lose_score integer);",
    )
    .unwrap();
    assert_eq!(get_player_metrics(&conn, 5).ok().unwrap(), vec![0, 0, 0, 0]);
}

#[test]
fn first_row_that_does_not_decode_stops_the_read() {
    let conn = Connection::open_in_memory().unwrap();
    conn.execute_batch(
        "
        create table player (id integer primary key, tag, prefix, exclude integer);
        insert into player values (1, 'ab', 'p', 0);
        insert into player values (2, 'abc', 7, 0);
        insert into player values (3, 1.5, 'q', 0);
        ",
    )
    .unwrap();
    // Rows come in id order; row 2 fails at its prefix before row 3 is read.
    assert!(matches!(get_players_by_tag(&conn, "b"), Err(DbError::ColumnType(2))));
    let ps = get_players_by_tag(&conn, "abc").ok();
    assert!(ps.is_none());
}

#[test]
fn rows_keep_their_order() {
    let conn = sample_db();
    let ids: Vec<i32> = get_players_by_tag(&conn, "").ok().unwrap().iter().map(|p| p.id).collect();
    assert_eq!(ids, vec![1, 2, 3, 5]);
}

#[test]
fn a_query_with_too_few_columns_reports_the_missing_column() {
    let conn = Connection::open_in_memory().unwrap();
    conn.execute_batch(
        "
        create table player (id integer primary key, tag text);
        insert into player values (1, 'ab');
        ",
    )
    .unwrap();
    assert!(matches!(get_player_by_id(&conn, 1), Err(DbError::ColumnIndex(2))));
}
