use bracket_stats::queries::{
    match_total_query, match_wins_query, player_by_id_query, player_sets_query, player_standings_query,
    players_by_tag_query, set_total_query, set_wins_query,
};

#[test]
fn tag_search_text() {
    let expected = format!(
        "select * \n        from \n            player \n        where \n            lower(tag) like lower('%{}%') \n            and exclude==0",
        "Mang0"
    );
    assert_eq!(players_by_tag_query("Mang0"), expected);
}

#[test]
fn player_by_id_text() {
    assert_eq!(player_by_id_query(17), "select * from player where id = 17");
    assert_eq!(player_by_id_query(-3), "select * from player where id = -3");
}

#[test]
fn metric_texts_hold_the_id_in_every_place() {
    let id = 305;
    assert_eq!(
        set_wins_query(id),
        format!("\n        select\n            count(*)\n        from\n            sets\n        where\n            win_id = {}\n        ", id)
    );
    assert_eq!(
        set_total_query(id),
        format!(
            "\n         select\n            count(*)\n        from\n            sets\n        where\n            win_id = {}\n        or\n            lose_id = {}\n        ",
            id, id
        )
    );
    assert_eq!(
        match_wins_query(id),
        format!(
            "\n        select\n            sum(case\n                when win_id = {} then win_score\n                else lose_score\n            end)\n        from\n            sets\n        where\n            win_id = {}\n        or\n            lose_id = {}\n        ",
            id, id, id
        )
    );
    assert_eq!(
        match_total_query(id),
        format!(
            "\n        select\n            sum( win_score + lose_score)\n        from\n            sets\n        where\n            win_id = {}\n        or\n            lose_id = {}\n        ",
            id, id
        )
    );
}

#[test]
fn standings_and_sets_texts() {
    assert!(player_standings_query(9).contains("and standing.player_id=9\n"));
    assert!(player_sets_query(9).contains("and (win_id=9 or lose_id=9)\n"));
    assert_eq!(player_sets_query(-1).matches("-1").count(), 2);
}
