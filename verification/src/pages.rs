//! What the pages of the site decide from the results of their queries:
//! where a search leads, what a player's page shows, what the front page
//! shows.

use vstd::prelude::*;
use vstd::string::*;

use crate::decimal::{decimal, decimal_string, lemma_parse_decimal, parse_i32, parse_i32_spec};
use crate::records::{MatchSet, Player, PlayerMetric, Standing};

verus! {

/// The path of a player's page, before the player's id.
pub const PLAYER_PATH: &'static str = "/player/";

/// The path of the page of player `id`.
pub open spec fn player_path(id: i32) -> Seq<char> {
    PLAYER_PATH@ + decimal(id as int)
}

/// The path of the page of player `id`, as the search redirects to it.
pub fn player_location(id: i32) -> (r: String)
    ensures
        r@ == player_path(id),
{
    let d = decimal_string(id);
    let mut s = String::from_str(PLAYER_PATH);
    s.append(d.as_str());
    s
}

/// The player id that the id segment of a player's path names: the number
/// it spells, or 0 when it does not spell an `i32`.
pub open spec fn player_id_of(segment: Seq<char>) -> i32 {
    match parse_i32_spec(segment) {
        Some(v) => v,
        None => 0,
    }
}

/// Reads the id segment of a player's path.
pub fn parse_player_id(segment: &str) -> (id: i32)
    ensures
        id == player_id_of(segment@),
{
    match parse_i32(segment) {
        Some(v) => v,
        None => 0,
    }
}

/// The page that the path of player `id` leads to shows player `id`.
pub proof fn lemma_player_path_roundtrip(id: i32)
    ensures
        player_path(id).subrange(PLAYER_PATH@.len() as int, player_path(id).len() as int) == decimal(id as int),
        player_id_of(decimal(id as int)) == id,
{
    assert(player_path(id).subrange(PLAYER_PATH@.len() as int, player_path(id).len() as int) =~= decimal(id as int));
    lemma_parse_decimal(id);
}

/// The message of a search that finds no player.
pub const NO_RESULTS: &'static str = "No results";

/// Where a search leads.
#[derive(Debug)]
pub enum SearchPage {
    /// Exactly one player matched: go to the page at this path.
    Redirect(String),
    /// No player matched, or the search failed: show the error page.
    NoResults,
    /// Several players matched: list them.
    Results(Vec<Player>),
}

/// The players a search found: none when the query failed. (`E` is the
/// error type of the query: the decision does not depend on it.)
pub open spec fn found_players<E>(result: Result<Vec<Player>, E>) -> Seq<Player> {
    match result {
        Ok(v) => v@,
        Err(_) => Seq::empty(),
    }
}

/// `page` is where a search with query result `result` leads.
pub open spec fn search_leads_to<E>(result: Result<Vec<Player>, E>, page: SearchPage) -> bool {
    let found = found_players(result);
    if found.len() == 1 {
        page matches SearchPage::Redirect(loc) && loc@ == player_path(found[0].id)
    } else if found.len() == 0 {
        page is NoResults
    } else {
        page matches SearchPage::Results(v) && v@ == found
    }
}

/// Decides where a search leads from the players it found.
pub fn search_page<E>(result: Result<Vec<Player>, E>) -> (page: SearchPage)
    ensures
        search_leads_to(result, page),
{
    let found = match result {
        Ok(v) => v,
        Err(_) => Vec::new(),
    };
    if found.len() == 1 {
        SearchPage::Redirect(player_location(found[0].id))
    } else if found.len() == 0 {
        SearchPage::NoResults
    } else {
        SearchPage::Results(found)
    }
}

/// A search that finds exactly one player leads to a page that shows that
/// player.
pub proof fn lemma_single_match_shows_player<E>(result: Result<Vec<Player>, E>, page: SearchPage)
    requires
        search_leads_to(result, page),
        found_players(result).len() == 1,
    ensures
        page matches SearchPage::Redirect(loc) && player_id_of(
            loc@.subrange(PLAYER_PATH@.len() as int, loc@.len() as int),
        ) == found_players(result)[0].id,
{
    let id = found_players(result)[0].id;
    lemma_player_path_roundtrip(id);
}

/// Where a search leads: a failed search, or one that finds no player,
/// shows "No results"; one that finds a single player goes to that player's
/// page; one that finds several lists every one of them, in the order found.
pub proof fn law_search_outcome<E>(result: Result<Vec<Player>, E>, page: SearchPage)
    requires
        search_leads_to(result, page),
    ensures
        result is Err ==> page is NoResults,
        result matches Ok(ps) ==> (ps.len() == 0 ==> page is NoResults),
        result matches Ok(ps) ==> (ps.len() == 1 ==> (page matches SearchPage::Redirect(loc) && loc@ == "/player/"@
            + decimal(ps[0].id as int))),
        result matches Ok(ps) ==> (ps.len() >= 2 ==> (page matches SearchPage::Results(v) && v.len() == ps.len()
            && forall|i: int| 0 <= i < ps.len() ==> v[i] == ps[i])),
{
}

/// What the front page shows: each list whose query succeeded.
#[derive(Debug)]
pub struct IndexPage {
    pub total_matches: Option<Vec<PlayerMetric>>,
    pub recent_winners: Option<Vec<Standing>>,
}

/// Builds the front page from its two query results; a failed query leaves
/// its list out.
pub fn index_page<E>(
    most_matches: Result<Vec<PlayerMetric>, E>,
    recent_winners: Result<Vec<Standing>, E>,
) -> (page: IndexPage)
    ensures
        page.total_matches == most_matches.ok(),
        page.recent_winners == recent_winners.ok(),
{
    let total_matches = match most_matches {
        Ok(v) => Some(v),
        Err(_) => None,
    };
    let recent = match recent_winners {
        Ok(v) => Some(v),
        Err(_) => None,
    };
    IndexPage { total_matches, recent_winners: recent }
}

/// The queries a player's page runs, in the order it runs them.
#[derive(Debug, Clone, Copy, PartialEq, Eq, Structural)]
pub enum PlayerFetch {
    Player,
    Metrics,
    Standings,
    Sets,
}

/// Why a player's page shows the error page.
#[derive(Debug, Clone, Copy, PartialEq, Eq, Structural)]
pub enum PlayerPageError {
    PlayerMissing,
    MetricsUnavailable,
    StandingsUnavailable,
    SetsUnavailable,
}

pub const PLAYER_MISSING: &'static str = "Player does not exist";
pub const METRICS_UNAVAILABLE: &'static str = "Unable to fetch player metrics";
pub const STANDINGS_UNAVAILABLE: &'static str = "Unable to fetch player standings";
pub const SETS_UNAVAILABLE: &'static str = "Unable to fetch player sets";

/// The message the error page shows.
pub open spec fn player_page_message(e: PlayerPageError) -> Seq<char> {
    match e {
        PlayerPageError::PlayerMissing => PLAYER_MISSING@,
        PlayerPageError::MetricsUnavailable => METRICS_UNAVAILABLE@,
        PlayerPageError::StandingsUnavailable => STANDINGS_UNAVAILABLE@,
        PlayerPageError::SetsUnavailable => SETS_UNAVAILABLE@,
    }
}

/// The message the error page shows.
pub fn player_page_error_message(e: PlayerPageError) -> (r: &'static str)
    ensures
        r@ == player_page_message(e),
{
    match e {
        PlayerPageError::PlayerMissing => PLAYER_MISSING,
        PlayerPageError::MetricsUnavailable => METRICS_UNAVAILABLE,
        PlayerPageError::StandingsUnavailable => STANDINGS_UNAVAILABLE,
        PlayerPageError::SetsUnavailable => SETS_UNAVAILABLE,
    }
}

/// The result of one query of a player's page.
#[derive(Debug)]
pub enum PlayerPageEvent<E> {
    PlayerLoaded(Result<Player, E>),
    MetricsLoaded(Result<Vec<i32>, E>),
    StandingsLoaded(Result<Vec<Standing>, E>),
    SetsLoaded(Result<Vec<MatchSet>, E>),
}

/// What a player's page does next.
#[derive(Debug)]
pub enum PlayerPageAction {
    /// Run this query and hand its result back.
    Fetch(PlayerFetch),
    /// Show the error page with the message of this error.
    ShowError(PlayerPageError),
    /// Render the page with what has been gathered.
    Render,
}

/// What a player's page has gathered so far.
#[derive(Debug)]
pub struct PlayerPage {
    pub player: Option<Player>,
    pub metrics: Option<Vec<i32>>,
    pub standings: Option<Vec<Standing>>,
    pub sets: Option<Vec<MatchSet>>,
}

/// A player's page before any query: nothing gathered, and the player is
/// read first.
pub open spec fn player_page_start() -> (PlayerPage, PlayerPageAction) {
    (
        PlayerPage { player: None, metrics: None, standings: None, sets: None },
        PlayerPageAction::Fetch(PlayerFetch::Player),
    )
}

/// One step of a player's page: a successful query is kept and the next one
/// is asked for (the page renders after the sets); a failed one ends with
/// the error page for that query.
pub open spec fn player_page_next<E>(page: PlayerPage, event: PlayerPageEvent<E>) -> (PlayerPage, PlayerPageAction) {
    match event {
        PlayerPageEvent::PlayerLoaded(Ok(p)) => (
            PlayerPage { player: Some(p), metrics: page.metrics, standings: page.standings, sets: page.sets },
            PlayerPageAction::Fetch(PlayerFetch::Metrics),
        ),
        PlayerPageEvent::PlayerLoaded(Err(_)) => (page, PlayerPageAction::ShowError(PlayerPageError::PlayerMissing)),
        PlayerPageEvent::MetricsLoaded(Ok(m)) => (
            PlayerPage { player: page.player, metrics: Some(m), standings: page.standings, sets: page.sets },
            PlayerPageAction::Fetch(PlayerFetch::Standings),
        ),
        PlayerPageEvent::MetricsLoaded(Err(_)) => (page, PlayerPageAction::ShowError(PlayerPageError::MetricsUnavailable)),
        PlayerPageEvent::StandingsLoaded(Ok(s)) => (
            PlayerPage { player: page.player, metrics: page.metrics, standings: Some(s), sets: page.sets },
            PlayerPageAction::Fetch(PlayerFetch::Sets),
        ),
        PlayerPageEvent::StandingsLoaded(Err(_)) => (page, PlayerPageAction::ShowError(PlayerPageError::StandingsUnavailable)),
        PlayerPageEvent::SetsLoaded(Ok(s)) => (
            PlayerPage { player: page.player, metrics: page.metrics, standings: page.standings, sets: Some(s) },
            PlayerPageAction::Render,
        ),
        PlayerPageEvent::SetsLoaded(Err(_)) => (page, PlayerPageAction::ShowError(PlayerPageError::SetsUnavailable)),
    }
}

/// The result that query `f` of a player's page gives, out of the results
/// `p`, `m`, `s` and `t` of its four queries.
pub open spec fn answer_to<E>(
    f: PlayerFetch,
    p: Result<Player, E>,
    m: Result<Vec<i32>, E>,
    s: Result<Vec<Standing>, E>,
    t: Result<Vec<MatchSet>, E>,
) -> PlayerPageEvent<E> {
    match f {
        PlayerFetch::Player => PlayerPageEvent::PlayerLoaded(p),
        PlayerFetch::Metrics => PlayerPageEvent::MetricsLoaded(m),
        PlayerFetch::Standings => PlayerPageEvent::StandingsLoaded(s),
        PlayerFetch::Sets => PlayerPageEvent::SetsLoaded(t),
    }
}

/// Runs a player's page for at most `steps` steps from `state`, answering
/// each query it asks for with its result, until it asks for none.
pub open spec fn player_page_run<E>(
    state: (PlayerPage, PlayerPageAction),
    p: Result<Player, E>,
    m: Result<Vec<i32>, E>,
    s: Result<Vec<Standing>, E>,
    t: Result<Vec<MatchSet>, E>,
    steps: nat,
) -> (PlayerPage, PlayerPageAction)
    decreases steps,
{
    if steps == 0 {
        state
    } else {
        match state.1 {
            PlayerPageAction::Fetch(f) => player_page_run(
                player_page_next(state.0, answer_to(f, p, m, s, t)),
                p,
                m,
                s,
                t,
                (steps - 1) as nat,
            ),
            _ => state,
        }
    }
}

/// A player's page asks for its four queries in order and then stops: it
/// renders exactly when all four succeed, and then shows their results;
/// otherwise it shows the error of the first query that failed.
pub proof fn lemma_player_page_outcome<E>(
    p: Result<Player, E>,
    m: Result<Vec<i32>, E>,
    s: Result<Vec<Standing>, E>,
    t: Result<Vec<MatchSet>, E>,
)
    ensures
        ({
            let (page, action) = player_page_run(player_page_start(), p, m, s, t, 4);
            &&& !(action is Fetch)
            &&& action is Render <==> (p is Ok && m is Ok && s is Ok && t is Ok)
            &&& action is Render ==> {
                &&& page.player == p.ok()
                &&& page.metrics == m.ok()
                &&& page.standings == s.ok()
                &&& page.sets == t.ok()
            }
            &&& p is Err ==> action == PlayerPageAction::ShowError(PlayerPageError::PlayerMissing)
            &&& p is Ok && m is Err ==> action == PlayerPageAction::ShowError(
                PlayerPageError::MetricsUnavailable,
            )
            &&& p is Ok && m is Ok && s is Err ==> action == PlayerPageAction::ShowError(
                PlayerPageError::StandingsUnavailable,
            )
            &&& p is Ok && m is Ok && s is Ok && t is Err ==> action == PlayerPageAction::ShowError(
                PlayerPageError::SetsUnavailable,
            )
        }),
{
    reveal_with_fuel(player_page_run, 5);
}

impl PlayerPage {
    /// A player's page before any query, and its first action.
    pub fn start() -> (r: (PlayerPage, PlayerPageAction))
        ensures
            r == player_page_start(),
    {
        (
            PlayerPage { player: None, metrics: None, standings: None, sets: None },
            PlayerPageAction::Fetch(PlayerFetch::Player),
        )
    }

    /// Takes the result of a query and says what to do next.
    pub fn next<E>(self, event: PlayerPageEvent<E>) -> (r: (PlayerPage, PlayerPageAction))
        ensures
            r == player_page_next(self, event),
    {
        let PlayerPage { player, metrics, standings, sets } = self;
        match event {
            PlayerPageEvent::PlayerLoaded(Ok(p)) => (
                PlayerPage { player: Some(p), metrics, standings, sets },
                PlayerPageAction::Fetch(PlayerFetch::Metrics),
            ),
            PlayerPageEvent::PlayerLoaded(Err(_)) => (
                PlayerPage { player, metrics, standings, sets },
                PlayerPageAction::ShowError(PlayerPageError::PlayerMissing),
            ),
            PlayerPageEvent::MetricsLoaded(Ok(m)) => (
                PlayerPage { player, metrics: Some(m), standings, sets },
                PlayerPageAction::Fetch(PlayerFetch::Standings),
            ),
            PlayerPageEvent::MetricsLoaded(Err(_)) => (
                PlayerPage { player, metrics, standings, sets },
                PlayerPageAction::ShowError(PlayerPageError::MetricsUnavailable),
            ),
            PlayerPageEvent::StandingsLoaded(Ok(s)) => (
                PlayerPage { player, metrics, standings: Some(s), sets },
                PlayerPageAction::Fetch(PlayerFetch::Sets),
            ),
            PlayerPageEvent::StandingsLoaded(Err(_)) => (
                PlayerPage { player, metrics, standings, sets },
                PlayerPageAction::ShowError(PlayerPageError::StandingsUnavailable),
            ),
            PlayerPageEvent::SetsLoaded(Ok(s)) => (
                PlayerPage { player, metrics, standings, sets: Some(s) },
                PlayerPageAction::Render,
            ),
            PlayerPageEvent::SetsLoaded(Err(_)) => (
                PlayerPage { player, metrics, standings, sets },
                PlayerPageAction::ShowError(PlayerPageError::SetsUnavailable),
            ),
        }
    }
}

} // verus!
