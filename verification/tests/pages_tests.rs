use bracket_stats::pages::{
    index_page, parse_player_id, player_location, player_page_error_message, search_page, PlayerFetch, PlayerPage,
    PlayerPageAction, PlayerPageError, PlayerPageEvent, SearchPage, NO_RESULTS,
};
use bracket_stats::records::{MatchSet, Player, PlayerMetric, Standing};

fn player(id: i32, tag: &str) -> Player {
    Player { id, tag: tag.to_string(), prefix: String::new() }
}

#[test]
fn location_of_a_player() {
    assert_eq!(player_location(42), "/player/42");
    assert_eq!(player_location(-7), "/player/-7");
}

#[test]
fn id_segment_reads_back() {
    for id in [0, 1, 42, -7, i32::MAX, i32::MIN] {
        let loc = player_location(id);
        assert_eq!(parse_player_id(&loc["/player/".len()..]), id);
    }
}

#[test]
fn bad_id_segment_reads_zero() {
    assert_eq!(parse_player_id("abc"), 0);
    assert_eq!(parse_player_id(""), 0);
    assert_eq!(parse_player_id("99999999999"), 0);
    assert_eq!(parse_player_id("+12"), 12);
}

#[test]
fn single_match_redirects() {
    match search_page::<()>(Ok(vec![player(5, "Mango")])) {
        SearchPage::Redirect(loc) => assert_eq!(loc, "/player/5"),
        other => panic!("{:?}", other),
    }
}

#[test]
fn no_match_or_failure_shows_no_results() {
    assert!(matches!(search_page::<()>(Ok(vec![])), SearchPage::NoResults));
    assert!(matches!(search_page::<&str>(Err("db down")), SearchPage::NoResults));
    assert_eq!(NO_RESULTS, "No results");
}

#[test]
fn several_matches_are_listed() {
    match search_page::<()>(Ok(vec![player(1, "a"), player(2, "b")])) {
        SearchPage::Results(v) => assert_eq!(v.iter().map(|p| p.id).collect::<Vec<_>>(), vec![1, 2]),
        other => panic!("{:?}", other),
    }
}

#[test]
fn front_page_keeps_what_succeeded() {
    let m = vec![PlayerMetric { metric: 3, id: 1, tag: "a".to_string(), prefix: String::new() }];
    let page = index_page::<&str>(Ok(m.clone()), Err("boom"));
    assert_eq!(page.total_matches, Some(m));
    assert_eq!(page.recent_winners, None);
    let page = index_page::<&str>(Err("x"), Ok(Vec::<Standing>::new()));
    assert_eq!(page.total_matches, None);
    assert_eq!(page.recent_winners, Some(vec![]));
}

fn run(
    p: Result<Player, ()>,
    m: Result<Vec<i32>, ()>,
    s: Result<Vec<Standing>, ()>,
    t: Result<Vec<MatchSet>, ()>,
) -> (PlayerPage, PlayerPageAction, Vec<PlayerFetch>) {
    let (mut page, mut action) = PlayerPage::start();
    let mut p = Some(p);
    let mut m = Some(m);
    let mut s = Some(s);
    let mut t = Some(t);
    let mut asked = Vec::new();
    while let PlayerPageAction::Fetch(f) = action {
        asked.push(f);
        let event = match f {
            PlayerFetch::Player => PlayerPageEvent::PlayerLoaded(p.take().unwrap()),
            PlayerFetch::Metrics => PlayerPageEvent::MetricsLoaded(m.take().unwrap()),
            PlayerFetch::Standings => PlayerPageEvent::StandingsLoaded(s.take().unwrap()),
            PlayerFetch::Sets => PlayerPageEvent::SetsLoaded(t.take().unwrap()),
        };
        let (next_page, next_action) = page.next(event);
        page = next_page;
        action = next_action;
    }
    (page, action, asked)
}

#[test]
fn player_page_renders_when_all_queries_succeed() {
    let (page, action, asked) = run(Ok(player(1, "Mango")), Ok(vec![2, 3, 7, 11]), Ok(vec![]), Ok(vec![]));
    assert!(matches!(action, PlayerPageAction::Render));
    assert_eq!(
        asked,
        vec![PlayerFetch::Player, PlayerFetch::Metrics, PlayerFetch::Standings, PlayerFetch::Sets]
    );
    assert_eq!(page.player, Some(player(1, "Mango")));
    assert_eq!(page.metrics, Some(vec![2, 3, 7, 11]));
    assert_eq!(page.standings, Some(vec![]));
    assert_eq!(page.sets, Some(vec![]));
}

#[test]
fn player_page_stops_at_first_failure() {
    let (_, action, asked) = run(Err(()), Ok(vec![]), Ok(vec![]), Ok(vec![]));
    assert!(matches!(action, PlayerPageAction::ShowError(PlayerPageError::PlayerMissing)));
    assert_eq!(asked, vec![PlayerFetch::Player]);
    let (_, action, _) = run(Ok(player(1, "a")), Err(()), Err(()), Ok(vec![]));
    assert!(matches!(action, PlayerPageAction::ShowError(PlayerPageError::MetricsUnavailable)));
    let (_, action, _) = run(Ok(player(1, "a")), Ok(vec![]), Err(()), Err(()));
    assert!(matches!(action, PlayerPageAction::ShowError(PlayerPageError::StandingsUnavailable)));
    let (page, action, _) = run(Ok(player(1, "a")), Ok(vec![1]), Ok(vec![]), Err(()));
    assert!(matches!(action, PlayerPageAction::ShowError(PlayerPageError::SetsUnavailable)));
    assert_eq!(page.metrics, Some(vec![1]));
}

#[test]
fn player_page_messages() {
    assert_eq!(player_page_error_message(PlayerPageError::PlayerMissing), "Player does not exist");
    assert_eq!(player_page_error_message(PlayerPageError::MetricsUnavailable), "Unable to fetch player metrics");
    assert_eq!(player_page_error_message(PlayerPageError::StandingsUnavailable), "Unable to fetch player standings");
    assert_eq!(player_page_error_message(PlayerPageError::SetsUnavailable), "Unable to fetch player sets");
}
