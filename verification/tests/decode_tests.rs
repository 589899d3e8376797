use bracket_stats::cells::{column_i32, column_text, Cell, DbError};
use bracket_stats::decode::{EventStanding, RowRecord};
use bracket_stats::records::{MatchSet, Player, PlayerMetric, Standing};

fn text(s: &str) -> Cell {
    Cell::Text(s.as_bytes().to_vec())
}

#[test]
fn integer_columns() {
    let row = vec![Cell::Integer(5), Cell::Null, Cell::Integer(1 << 40), Cell::Real, text("3")];
    assert_eq!(column_i32(&row, 0).ok(), Some(5));
    assert!(matches!(column_i32(&row, 1), Err(DbError::ColumnType(1))));
    assert!(matches!(column_i32(&row, 2), Err(DbError::OutOfRange(2, v)) if v == 1 << 40));
    assert!(matches!(column_i32(&row, 3), Err(DbError::ColumnType(3))));
    assert!(matches!(column_i32(&row, 4), Err(DbError::ColumnType(4))));
    assert!(matches!(column_i32(&row, 5), Err(DbError::ColumnIndex(5))));
}

#[test]
fn integer_column_bounds() {
    let row = vec![Cell::Integer(i32::MAX as i64), Cell::Integer(i32::MIN as i64), Cell::Integer(i32::MAX as i64 + 1)];
    assert_eq!(column_i32(&row, 0).ok(), Some(i32::MAX));
    assert_eq!(column_i32(&row, 1).ok(), Some(i32::MIN));
    assert!(matches!(column_i32(&row, 2), Err(DbError::OutOfRange(2, _))));
}

#[test]
fn text_columns() {
    let row = vec![text("Mang0"), Cell::Text(vec![0xff, 0xfe]), Cell::Integer(1), Cell::Blob(vec![65]), text("ünï")];
    assert_eq!(column_text(&row, 0).ok(), Some("Mang0".to_string()));
    assert!(matches!(column_text(&row, 1), Err(DbError::Utf8(1))));
    assert!(matches!(column_text(&row, 2), Err(DbError::ColumnType(2))));
    assert!(matches!(column_text(&row, 3), Err(DbError::ColumnType(3))));
    assert_eq!(column_text(&row, 4).ok(), Some("ünï".to_string()));
    assert!(matches!(column_text(&row, 9), Err(DbError::ColumnIndex(9))));
}

#[test]
fn player_row() {
    let row = vec![Cell::Integer(3), text("Zain"), text("")];
    let p = Player::decode_row(&row).ok().unwrap();
    assert_eq!(p, Player { id: 3, tag: "Zain".to_string(), prefix: "".to_string() });
}

#[test]
fn first_failing_column_is_reported() {
    let row = vec![Cell::Integer(3), Cell::Null, Cell::Integer(9)];
    assert!(matches!(Player::decode_row(&row), Err(DbError::ColumnType(1))));
    let short = vec![Cell::Integer(3), text("a")];
    assert!(matches!(Player::decode_row(&short), Err(DbError::ColumnIndex(2))));
}

#[test]
fn metric_rows() {
    let row = vec![Cell::Integer(120), Cell::Integer(4), text("Hbox"), text("LG")];
    let m = PlayerMetric::decode_row(&row).ok().unwrap();
    assert_eq!(m, PlayerMetric { metric: 120, id: 4, tag: "Hbox".to_string(), prefix: "LG".to_string() });
}

#[test]
fn winner_rows() {
    let row = vec![Cell::Integer(1), text("Genesis"), text("genesis-9"), Cell::Integer(8), text("aMSa"), text("")];
    let s = Standing::decode_row(&row).ok().unwrap();
    assert_eq!(s.placement, 1);
    assert_eq!(s.event_slug, "genesis-9");
    assert_eq!(s.player_id, 8);
    assert_eq!(s.player_tag, "aMSa");
}

#[test]
fn own_standings_leave_player_empty() {
    for row in [
        vec![Cell::Integer(5), text("Big House"), text("bh-10"), Cell::Integer(77)],
        vec![Cell::Integer(2), text("Smash Con"), text("sc")],
    ] {
        let EventStanding(st) = EventStanding::decode_row(&row).ok().unwrap();
        assert_eq!(st.player_id, 0);
        assert_eq!(st.player_tag, "");
        assert_eq!(st.player_prefix, "");
    }
    let row = vec![Cell::Integer(5), text("Big House"), text("bh-10")];
    assert_eq!(EventStanding::decode_row(&row).ok().unwrap().0.tournament_name, "Big House");
    let short = vec![Cell::Integer(5), text("Big House")];
    assert!(matches!(EventStanding::decode_row(&short), Err(DbError::ColumnIndex(2))));
}

#[test]
fn set_rows() {
    let row = vec![
        Cell::Integer(11),
        Cell::Integer(3),
        text("Singles"),
        text("Genesis"),
        text("g"),
        text("Grand Final"),
        Cell::Integer(1),
        Cell::Integer(3),
        text("A"),
        text("pa"),
        Cell::Integer(2),
        Cell::Integer(2),
        text("B"),
        text("pb"),
    ];
    let s = MatchSet::decode_row(&row).ok().unwrap();
    assert_eq!(s.id, 11);
    assert_eq!(s.round, "Grand Final");
    assert_eq!(s.winner_score, 3);
    assert_eq!(s.loser, 2);
    assert_eq!(s.loser_prefix, "pb");
    let mut bad = row.clone();
    bad[13] = Cell::Null;
    assert!(matches!(MatchSet::decode_row(&bad), Err(DbError::ColumnType(13))));
}
