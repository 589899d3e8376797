//! The SQL text of every query the site runs. A player's tag is placed in
//! the text as it is given; a player's id is placed as its decimal text.

use vstd::prelude::*;
use vstd::string::*;

use crate::decimal::{decimal, decimal_string};

verus! {

pub const PLAYERS_BY_TAG_HEAD: &'static str = "select * \n        from \n            player \n        where \n            lower(tag) like lower('%";
pub const PLAYERS_BY_TAG_TAIL: &'static str = "%') \n            and exclude==0";
pub const PLAYER_BY_ID_HEAD: &'static str = "select * from player where id = ";
pub const MOST_MATCHES_SQL: &'static str = "select\n            sum( sets.win_score + sets.lose_score) as total, \n            player.id, \n            player.tag, \n            player.prefix \n        from\n            sets\n        inner join player on sets.win_id=player.id\n        or sets.lose_id=player.id\n        group by player.id\n        order by total desc\n        limit 20";
pub const SET_WINS_HEAD: &'static str = "\n        select\n            count(*)\n        from\n            sets\n        where\n            win_id = ";
pub const QUERY_END: &'static str = "\n        ";
pub const SET_TOTAL_HEAD: &'static str = "\n         select\n            count(*)\n        from\n            sets\n        where\n            win_id = ";
pub const OR_LOSER_ID: &'static str = "\n        or\n            lose_id = ";
pub const MATCH_WINS_HEAD: &'static str = "\n        select\n            sum(case\n                when win_id = ";
pub const MATCH_WINS_MID: &'static str = " then win_score\n                else lose_score\n            end)\n        from\n            sets\n        where\n            win_id = ";
pub const MATCH_TOTAL_HEAD: &'static str = "\n        select\n            sum( win_score + lose_score)\n        from\n            sets\n        where\n            win_id = ";
pub const RECENT_WINNERS_SQL: &'static str = "\n        select\n            standing.placement as place,\n            event.tournament_name,\n            event.slug,\n            standing.player_id,\n            player.tag,\n            player.prefix\n        from\n            standing\n        inner join event on\n            standing.event_id=event.id\n            and (place == 1 or place == 2 or place == 3)\n        inner join player on\n            standing.player_id=player.id\n        where\n            event.id in (\n                select\n                    event_id\n                from\n                    standing\n                group by\n                    event_id\n                having count(*) >= 40\n            )\n        order by\n            event.start desc,\n            standing.placement\n        limit 15\n        ";
pub const PLAYER_STANDINGS_HEAD: &'static str = "\n        select\n            standing.placement,\n            event.tournament_name,\n            event.slug\n        from\n            standing\n        inner join event on\n            standing.event_id=event.id\n            and standing.player_id=";
pub const PLAYER_STANDINGS_TAIL: &'static str = "\n        order by event.start desc\n        limit 20\n        ";
pub const PLAYER_SETS_HEAD: &'static str = "\n        select\n            sets.id,\n            event.id,\n            event.name,\n            event.tournament_name,\n            event.slug,\n            sets.round,\n            sets.win_id,\n            sets.win_score,\n            A.tag,\n            A.prefix,\n            sets.lose_id,\n            sets.lose_score,\n            B.tag,\n            B.prefix\n        from\n            sets\n        inner join event on\n            sets.event_id=event.id\n            and (win_id=";
pub const PLAYER_SETS_MID: &'static str = " or lose_id=";
pub const PLAYER_SETS_TAIL: &'static str = ")\n        inner join player A on\n            sets.win_id=A.id\n        inner join player B on\n            sets.lose_id=B.id\n        order by sets.id desc\n        ";

/// Players whose tag contains `tag`, ignoring case, and who are not excluded.
pub open spec fn players_by_tag_sql(tag: Seq<char>) -> Seq<char> {
    PLAYERS_BY_TAG_HEAD@ + tag + PLAYERS_BY_TAG_TAIL@
}

/// The player with id `id`.
pub open spec fn player_by_id_sql(id: i32) -> Seq<char> {
    PLAYER_BY_ID_HEAD@ + decimal(id as int)
}

/// The number of sets that player `id` won.
pub open spec fn set_wins_sql(id: i32) -> Seq<char> {
    SET_WINS_HEAD@ + decimal(id as int) + QUERY_END@
}

/// The number of sets that player `id` played.
pub open spec fn set_total_sql(id: i32) -> Seq<char> {
    SET_TOTAL_HEAD@ + decimal(id as int) + OR_LOSER_ID@ + decimal(id as int) + QUERY_END@
}

/// The number of games that player `id` won, over the sets they played.
pub open spec fn match_wins_sql(id: i32) -> Seq<char> {
    MATCH_WINS_HEAD@ + decimal(id as int) + MATCH_WINS_MID@ + decimal(id as int) + OR_LOSER_ID@
        + decimal(id as int) + QUERY_END@
}

/// The number of games played in the sets that player `id` played.
pub open spec fn match_total_sql(id: i32) -> Seq<char> {
    MATCH_TOTAL_HEAD@ + decimal(id as int) + OR_LOSER_ID@ + decimal(id as int) + QUERY_END@
}

/// The standings of player `id`, most recent event first.
pub open spec fn player_standings_sql(id: i32) -> Seq<char> {
    PLAYER_STANDINGS_HEAD@ + decimal(id as int) + PLAYER_STANDINGS_TAIL@
}

/// The sets that player `id` played, latest first.
pub open spec fn player_sets_sql(id: i32) -> Seq<char> {
    PLAYER_SETS_HEAD@ + decimal(id as int) + PLAYER_SETS_MID@ + decimal(id as int) + PLAYER_SETS_TAIL@
}

/// The SQL text that searches players by tag.
pub fn players_by_tag_query(tag: &str) -> (r: String)
    ensures
        r@ == players_by_tag_sql(tag@),
{
    let mut s = String::from_str(PLAYERS_BY_TAG_HEAD);
    s.append(tag);
    s.append(PLAYERS_BY_TAG_TAIL);
    s
}

/// The SQL text that reads one player.
pub fn player_by_id_query(id: i32) -> (r: String)
    ensures
        r@ == player_by_id_sql(id),
{
    let d = decimal_string(id);
    let mut s = String::from_str(PLAYER_BY_ID_HEAD);
    s.append(d.as_str());
    s
}

/// The SQL text that counts the sets a player won.
pub fn set_wins_query(id: i32) -> (r: String)
    ensures
        r@ == set_wins_sql(id),
{
    let d = decimal_string(id);
    let mut s = String::from_str(SET_WINS_HEAD);
    s.append(d.as_str());
    s.append(QUERY_END);
    s
}

/// The SQL text that counts the sets a player played.
pub fn set_total_query(id: i32) -> (r: String)
    ensures
        r@ == set_total_sql(id),
{
    let d = decimal_string(id);
    let mut s = String::from_str(SET_TOTAL_HEAD);
    s.append(d.as_str());
    s.append(OR_LOSER_ID);
    s.append(d.as_str());
    s.append(QUERY_END);
    s
}

/// The SQL text that sums the games a player won.
pub fn match_wins_query(id: i32) -> (r: String)
    ensures
        r@ == match_wins_sql(id),
{
    let d = decimal_string(id);
    let mut s = String::from_str(MATCH_WINS_HEAD);
    s.append(d.as_str());
    s.append(MATCH_WINS_MID);
    s.append(d.as_str());
    s.append(OR_LOSER_ID);
    s.append(d.as_str());
    s.append(QUERY_END);
    s
}

/// The SQL text that sums the games of a player's sets.
pub fn match_total_query(id: i32) -> (r: String)
    ensures
        r@ == match_total_sql(id),
{
    let d = decimal_string(id);
    let mut s = String::from_str(MATCH_TOTAL_HEAD);
    s.append(d.as_str());
    s.append(OR_LOSER_ID);
    s.append(d.as_str());
    s.append(QUERY_END);
    s
}

/// The SQL text that reads a player's standings.
pub fn player_standings_query(id: i32) -> (r: String)
    ensures
        r@ == player_standings_sql(id),
{
    let d = decimal_string(id);
    let mut s = String::from_str(PLAYER_STANDINGS_HEAD);
    s.append(d.as_str());
    s.append(PLAYER_STANDINGS_TAIL);
    s
}

/// The SQL text that reads a player's sets.
pub fn player_sets_query(id: i32) -> (r: String)
    ensures
        r@ == player_sets_sql(id),
{
    let d = decimal_string(id);
    let mut s = String::from_str(PLAYER_SETS_HEAD);
    s.append(d.as_str());
    s.append(PLAYER_SETS_MID);
    s.append(d.as_str());
    s.append(PLAYER_SETS_TAIL);
    s
}

} // verus!
