//! Decoding of result rows into the site's records. Each record reads a
//! fixed list of columns, in order, as the queries of the site select them.

use vstd::prelude::*;

use crate::cells::{Cell, ColumnKind, DbError};
use crate::records::{MatchSet, Player, PlayerMetric, Standing, StandingView, PlayerView, PlayerMetricView, MatchSetView};
use crate::rows::{
    decode_columns, holds_int, holds_text, int_at, int_value, lemma_decoded_columns, row_error, text_at, text_value, value_is,
    ColumnValue,
};

verus! {

/// A record that is read out of one result row.
pub trait RowRecord: Sized + View {
    /// The kinds of the columns the record reads, from column 0 on.
    spec fn columns() -> Seq<ColumnKind>;

    /// The record a row gives, when it decodes.
    spec fn of_row(row: Seq<Cell>) -> Self::V;

    /// Decodes one row.
    fn decode_row(row: &Vec<Cell>) -> (r: Result<Self, DbError>)
        ensures
            match r {
                Ok(x) => row_error(row@, Self::columns()) is None && x@ == Self::of_row(row@),
                Err(e) => row_error(row@, Self::columns()) == Some(e),
            },
    ;
}

impl RowRecord for Player {
    /// `id`, `tag`, `prefix`.
    open spec fn columns() -> Seq<ColumnKind> {
        seq![ColumnKind::Int, ColumnKind::Text, ColumnKind::Text]
    }

    open spec fn of_row(row: Seq<Cell>) -> PlayerView {
        PlayerView { id: int_value(row, 0), tag: text_value(row, 1), prefix: text_value(row, 2) }
    }

    fn decode_row(row: &Vec<Cell>) -> (r: Result<Player, DbError>) {
        let kinds = vec![ColumnKind::Int, ColumnKind::Text, ColumnKind::Text];
        assert(kinds@ == Self::columns());
        let vals = decode_columns(row, &kinds)?;
        assert(value_is(vals[0], row@, 0, kinds@[0]));
        assert(value_is(vals[1], row@, 1, kinds@[1]));
        assert(value_is(vals[2], row@, 2, kinds@[2]));
        Ok(Player { id: int_at(&vals, 0), tag: text_at(&vals, 1), prefix: text_at(&vals, 2) })
    }
}

impl RowRecord for PlayerMetric {
    /// `metric`, `id`, `tag`, `prefix`.
    open spec fn columns() -> Seq<ColumnKind> {
        seq![ColumnKind::Int, ColumnKind::Int, ColumnKind::Text, ColumnKind::Text]
    }

    open spec fn of_row(row: Seq<Cell>) -> PlayerMetricView {
        PlayerMetricView {
            metric: int_value(row, 0),
            id: int_value(row, 1),
            tag: text_value(row, 2),
            prefix: text_value(row, 3),
        }
    }

    fn decode_row(row: &Vec<Cell>) -> (r: Result<PlayerMetric, DbError>) {
        let kinds = vec![ColumnKind::Int, ColumnKind::Int, ColumnKind::Text, ColumnKind::Text];
        assert(kinds@ == Self::columns());
        let vals = decode_columns(row, &kinds)?;
        assert(value_is(vals[0], row@, 0, kinds@[0]));
        assert(value_is(vals[1], row@, 1, kinds@[1]));
        assert(value_is(vals[2], row@, 2, kinds@[2]));
        assert(value_is(vals[3], row@, 3, kinds@[3]));
        Ok(PlayerMetric {
            metric: int_at(&vals, 0),
            id: int_at(&vals, 1),
            tag: text_at(&vals, 2),
            prefix: text_at(&vals, 3),
        })
    }
}

impl RowRecord for Standing {
    /// `placement`, `tournament_name`, `event_slug`, `player_id`, `player_tag`, `player_prefix`.
    open spec fn columns() -> Seq<ColumnKind> {
        seq![ColumnKind::Int, ColumnKind::Text, ColumnKind::Text, ColumnKind::Int, ColumnKind::Text, ColumnKind::Text]
    }

    open spec fn of_row(row: Seq<Cell>) -> StandingView {
        StandingView {
            placement: int_value(row, 0),
            tournament_name: text_value(row, 1),
            event_slug: text_value(row, 2),
            player_id: int_value(row, 3),
            player_tag: text_value(row, 4),
            player_prefix: text_value(row, 5),
        }
    }

    fn decode_row(row: &Vec<Cell>) -> (r: Result<Standing, DbError>) {
        let kinds = vec![ColumnKind::Int, ColumnKind::Text, ColumnKind::Text, ColumnKind::Int, ColumnKind::Text, ColumnKind::Text];
        assert(kinds@ == Self::columns());
        let vals = decode_columns(row, &kinds)?;
        assert(value_is(vals[0], row@, 0, kinds@[0]));
        assert(value_is(vals[1], row@, 1, kinds@[1]));
        assert(value_is(vals[2], row@, 2, kinds@[2]));
        assert(value_is(vals[3], row@, 3, kinds@[3]));
        assert(value_is(vals[4], row@, 4, kinds@[4]));
        assert(value_is(vals[5], row@, 5, kinds@[5]));
        Ok(Standing {
            placement: int_at(&vals, 0),
            tournament_name: text_at(&vals, 1),
            event_slug: text_at(&vals, 2),
            player_id: int_at(&vals, 3),
            player_tag: text_at(&vals, 4),
            player_prefix: text_at(&vals, 5),
        })
    }
}

impl RowRecord for MatchSet {
    /// The fourteen columns of a set, in the order of its fields.
    open spec fn columns() -> Seq<ColumnKind> {
        seq![ColumnKind::Int, ColumnKind::Int, ColumnKind::Text, ColumnKind::Text, ColumnKind::Text, ColumnKind::Text, ColumnKind::Int, ColumnKind::Int, ColumnKind::Text, ColumnKind::Text, ColumnKind::Int, ColumnKind::Int, ColumnKind::Text, ColumnKind::Text]
    }

    open spec fn of_row(row: Seq<Cell>) -> MatchSetView {
        MatchSetView {
            id: int_value(row, 0),
            event: int_value(row, 1),
            event_name: text_value(row, 2),
            tournament_name: text_value(row, 3),
            event_slug: text_value(row, 4),
            round: text_value(row, 5),
            winner: int_value(row, 6),
            winner_score: int_value(row, 7),
            winner_tag: text_value(row, 8),
            winner_prefix: text_value(row, 9),
            loser: int_value(row, 10),
            loser_score: int_value(row, 11),
            loser_tag: text_value(row, 12),
            loser_prefix: text_value(row, 13),
        }
    }

    fn decode_row(row: &Vec<Cell>) -> (r: Result<MatchSet, DbError>) {
        let kinds = vec![ColumnKind::Int, ColumnKind::Int, ColumnKind::Text, ColumnKind::Text, ColumnKind::Text, ColumnKind::Text, ColumnKind::Int, ColumnKind::Int, ColumnKind::Text, ColumnKind::Text, ColumnKind::Int, ColumnKind::Int, ColumnKind::Text, ColumnKind::Text];
        assert(kinds@ == Self::columns());
        let vals = decode_columns(row, &kinds)?;
        assert(value_is(vals[0], row@, 0, kinds@[0]));
        assert(value_is(vals[1], row@, 1, kinds@[1]));
        assert(value_is(vals[2], row@, 2, kinds@[2]));
        assert(value_is(vals[3], row@, 3, kinds@[3]));
        assert(value_is(vals[4], row@, 4, kinds@[4]));
        assert(value_is(vals[5], row@, 5, kinds@[5]));
        assert(value_is(vals[6], row@, 6, kinds@[6]));
        assert(value_is(vals[7], row@, 7, kinds@[7]));
        assert(value_is(vals[8], row@, 8, kinds@[8]));
        assert(value_is(vals[9], row@, 9, kinds@[9]));
        assert(value_is(vals[10], row@, 10, kinds@[10]));
        assert(value_is(vals[11], row@, 11, kinds@[11]));
        assert(value_is(vals[12], row@, 12, kinds@[12]));
        assert(value_is(vals[13], row@, 13, kinds@[13]));
        Ok(MatchSet {
            id: int_at(&vals, 0),
            event: int_at(&vals, 1),
            event_name: text_at(&vals, 2),
            tournament_name: text_at(&vals, 3),
            event_slug: text_at(&vals, 4),
            round: text_at(&vals, 5),
            winner: int_at(&vals, 6),
            winner_score: int_at(&vals, 7),
            winner_tag: text_at(&vals, 8),
            winner_prefix: text_at(&vals, 9),
            loser: int_at(&vals, 10),
            loser_score: int_at(&vals, 11),
            loser_tag: text_at(&vals, 12),
            loser_prefix: text_at(&vals, 13),
        })
    }
}

/// A player's own standing, as the standings query of a player's page reads
/// it: the event columns `placement`, `tournament_name`, `event_slug`, with
/// no player filled in (player id 0, empty tag and prefix).
#[derive(Debug)]
pub struct EventStanding(pub Standing);

impl View for EventStanding {
    type V = StandingView;

    open spec fn view(&self) -> StandingView {
        self.0@
    }
}

impl RowRecord for EventStanding {
    open spec fn columns() -> Seq<ColumnKind> {
        seq![ColumnKind::Int, ColumnKind::Text, ColumnKind::Text]
    }

    open spec fn of_row(row: Seq<Cell>) -> StandingView {
        StandingView {
            placement: int_value(row, 0),
            tournament_name: text_value(row, 1),
            event_slug: text_value(row, 2),
            player_id: 0,
            player_tag: Seq::empty(),
            player_prefix: Seq::empty(),
        }
    }

    fn decode_row(row: &Vec<Cell>) -> (r: Result<EventStanding, DbError>) {
        let kinds = vec![ColumnKind::Int, ColumnKind::Text, ColumnKind::Text];
        assert(kinds@ == Self::columns());
        let vals = decode_columns(row, &kinds)?;
        assert(value_is(vals[0], row@, 0, kinds@[0]));
        assert(value_is(vals[1], row@, 1, kinds@[1]));
        assert(value_is(vals[2], row@, 2, kinds@[2]));
        Ok(EventStanding(Standing {
            placement: int_at(&vals, 0),
            tournament_name: text_at(&vals, 1),
            event_slug: text_at(&vals, 2),
            player_id: 0,
            player_tag: String::new(),
            player_prefix: String::new(),
        }))
    }
}

/// A player read from a row holds, in order, the row's columns `id`, `tag`, `prefix` (the first three of `select * from player`).
/// Each field is what its own column holds, whatever the other columns hold.
pub proof fn law_player_columns(row: Seq<Cell>)
    requires
        row_error(row, Player::columns()) is None,
    ensures
        ({
            let r = Player::of_row(row);
            &&& holds_int(row, 0, r.id)
            &&& holds_text(row, 1, r.tag)
            &&& holds_text(row, 2, r.prefix)
        }),
{
    lemma_decoded_columns(row, Player::columns());
}

/// A metric read from a row holds, in order, the columns `total`, `player.id`, `player.tag`, `player.prefix` of the most-games query.
/// Each field is what its own column holds, whatever the other columns hold.
pub proof fn law_player_metric_columns(row: Seq<Cell>)
    requires
        row_error(row, PlayerMetric::columns()) is None,
    ensures
        ({
            let r = PlayerMetric::of_row(row);
            &&& holds_int(row, 0, r.metric)
            &&& holds_int(row, 1, r.id)
            &&& holds_text(row, 2, r.tag)
            &&& holds_text(row, 3, r.prefix)
        }),
{
    lemma_decoded_columns(row, PlayerMetric::columns());
}

/// A recent winner read from a row holds, in order, the columns `place`, `event.tournament_name`, `event.slug`, `standing.player_id`, `player.tag`, `player.prefix` of the recent-winners query.
/// Each field is what its own column holds, whatever the other columns hold.
pub proof fn law_standing_columns(row: Seq<Cell>)
    requires
        row_error(row, Standing::columns()) is None,
    ensures
        ({
            let r = Standing::of_row(row);
            &&& holds_int(row, 0, r.placement)
            &&& holds_text(row, 1, r.tournament_name)
            &&& holds_text(row, 2, r.event_slug)
            &&& holds_int(row, 3, r.player_id)
            &&& holds_text(row, 4, r.player_tag)
            &&& holds_text(row, 5, r.player_prefix)
        }),
{
    lemma_decoded_columns(row, Standing::columns());
}

/// A set read from a row holds, in order, the columns `sets.id`, `event.id`, `event.name`, `event.tournament_name`, `event.slug`, `sets.round`, `sets.win_id`, `sets.win_score`, `A.tag`, `A.prefix`, `sets.lose_id`, `sets.lose_score`, `B.tag`, `B.prefix` of the player-sets query.
/// Each field is what its own column holds, whatever the other columns hold.
pub proof fn law_match_set_columns(row: Seq<Cell>)
    requires
        row_error(row, MatchSet::columns()) is None,
    ensures
        ({
            let r = MatchSet::of_row(row);
            &&& holds_int(row, 0, r.id)
            &&& holds_int(row, 1, r.event)
            &&& holds_text(row, 2, r.event_name)
            &&& holds_text(row, 3, r.tournament_name)
            &&& holds_text(row, 4, r.event_slug)
            &&& holds_text(row, 5, r.round)
            &&& holds_int(row, 6, r.winner)
            &&& holds_int(row, 7, r.winner_score)
            &&& holds_text(row, 8, r.winner_tag)
            &&& holds_text(row, 9, r.winner_prefix)
            &&& holds_int(row, 10, r.loser)
            &&& holds_int(row, 11, r.loser_score)
            &&& holds_text(row, 12, r.loser_tag)
            &&& holds_text(row, 13, r.loser_prefix)
        }),
{
    lemma_decoded_columns(row, MatchSet::columns());
}

/// A player's own standing read from a row holds, in order, the columns
/// `standing.placement`, `event.tournament_name`, `event.slug` of the
/// standings query, and no player: id 0, empty tag and prefix.
pub proof fn law_event_standing_columns(row: Seq<Cell>)
    requires
        row_error(row, EventStanding::columns()) is None,
    ensures
        ({
            let r = EventStanding::of_row(row);
            &&& holds_int(row, 0, r.placement)
            &&& holds_text(row, 1, r.tournament_name)
            &&& holds_text(row, 2, r.event_slug)
            &&& r.player_id == 0
            &&& r.player_tag.len() == 0
            &&& r.player_prefix.len() == 0
        }),
{
    lemma_decoded_columns(row, EventStanding::columns());
}

} // verus!
