//! The records the site shows, and their mathematical views.

use vstd::prelude::*;

verus! {

/// A player: database id, gamer tag and sponsor prefix.
#[derive(Debug, Clone, PartialEq, Eq)]
pub struct Player {
    pub id: i32,
    pub tag: String,
    pub prefix: String,
}

pub struct PlayerView {
    pub id: i32,
    pub tag: Seq<char>,
    pub prefix: Seq<char>,
}

impl View for Player {
    type V = PlayerView;

    open spec fn view(&self) -> PlayerView {
        PlayerView { id: self.id, tag: self.tag@, prefix: self.prefix@ }
    }
}

/// A player together with one number measured for them.
#[derive(Debug, Clone, PartialEq, Eq)]
pub struct PlayerMetric {
    pub metric: i32,
    pub id: i32,
    pub tag: String,
    pub prefix: String,
}

pub struct PlayerMetricView {
    pub metric: i32,
    pub id: i32,
    pub tag: Seq<char>,
    pub prefix: Seq<char>,
}

impl View for PlayerMetric {
    type V = PlayerMetricView;

    open spec fn view(&self) -> PlayerMetricView {
        PlayerMetricView { metric: self.metric, id: self.id, tag: self.tag@, prefix: self.prefix@ }
    }
}

/// A placement of a player at an event of a tournament.
#[derive(Debug, Clone, PartialEq, Eq)]
pub struct Standing {
    pub placement: i32,
    pub tournament_name: String,
    pub event_slug: String,
    pub player_id: i32,
    pub player_tag: String,
    pub player_prefix: String,
}

pub struct StandingView {
    pub placement: i32,
    pub tournament_name: Seq<char>,
    pub event_slug: Seq<char>,
    pub player_id: i32,
    pub player_tag: Seq<char>,
    pub player_prefix: Seq<char>,
}

impl View for Standing {
    type V = StandingView;

    open spec fn view(&self) -> StandingView {
        StandingView {
            placement: self.placement,
            tournament_name: self.tournament_name@,
            event_slug: self.event_slug@,
            player_id: self.player_id,
            player_tag: self.player_tag@,
            player_prefix: self.player_prefix@,
        }
    }
}

/// One set played between two players at an event: who won and lost, and
/// how many games each took.
#[derive(Debug, Clone, PartialEq, Eq)]
pub struct MatchSet {
    pub id: i32,
    pub event: i32,
    pub event_name: String,
    pub tournament_name: String,
    pub event_slug: String,
    pub round: String,
    pub winner: i32,
    pub winner_score: i32,
    pub winner_tag: String,
    pub winner_prefix: String,
    pub loser: i32,
    pub loser_score: i32,
    pub loser_tag: String,
    pub loser_prefix: String,
}

pub struct MatchSetView {
    pub id: i32,
    pub event: i32,
    pub event_name: Seq<char>,
    pub tournament_name: Seq<char>,
    pub event_slug: Seq<char>,
    pub round: Seq<char>,
    pub winner: i32,
    pub winner_score: i32,
    pub winner_tag: Seq<char>,
    pub winner_prefix: Seq<char>,
    pub loser: i32,
    pub loser_score: i32,
    pub loser_tag: Seq<char>,
    pub loser_prefix: Seq<char>,
}

impl View for MatchSet {
    type V = MatchSetView;

    open spec fn view(&self) -> MatchSetView {
        MatchSetView {
            id: self.id,
            event: self.event,
            event_name: self.event_name@,
            tournament_name: self.tournament_name@,
            event_slug: self.event_slug@,
            round: self.round@,
            winner: self.winner,
            winner_score: self.winner_score,
            winner_tag: self.winner_tag@,
            winner_prefix: self.winner_prefix@,
            loser: self.loser,
            loser_score: self.loser_score,
            loser_tag: self.loser_tag@,
            loser_prefix: self.loser_prefix@,
        }
    }
}

} // verus!
