//! Dodge detection: a player lost league points without playing a game.
use vstd::prelude::*;
use crate::model::{LeagueItem, PlayerSnapshotRecord, RankTier, Region};
use crate::player_map::PlayerMap;
use crate::sequences::{lemma_filter_map_split, views};

verus! {

/// The league points that the ladder takes for inactivity. A loss of exactly
/// this size is decay, never a dodge.
pub const DECAY_LP_LOSS: i32 = 75;

/// One detected dodge. Tier, wins and losses are those recorded before the drop.
#[derive(Clone, Debug, PartialEq, Eq)]
pub struct DodgeEvent {
    pub summoner_id: String,
    pub region: Region,
    pub lp_before: i32,
    pub lp_after: i32,
    pub rank_tier: RankTier,
    pub at_wins: i32,
    pub at_losses: i32,
}

/// A dodge event as a mathematical value.
pub struct DodgeEventView {
    pub summoner_id: Seq<char>,
    pub region: Region,
    pub lp_before: i32,
    pub lp_after: i32,
    pub rank_tier: RankTier,
    pub at_wins: i32,
    pub at_losses: i32,
}

impl View for DodgeEvent {
    type V = DodgeEventView;

    open spec fn view(&self) -> DodgeEventView {
        DodgeEventView {
            summoner_id: self.summoner_id@,
            region: self.region,
            lp_before: self.lp_before,
            lp_after: self.lp_after,
            rank_tier: self.rank_tier,
            at_wins: self.at_wins,
            at_losses: self.at_losses,
        }
    }
}

/// Whether the step from `old` to `new` is a dodge: league points fell, no game
/// was played, and the loss is not the decay penalty.
pub open spec fn is_dodge(old: PlayerSnapshotRecord, new: LeagueItem) -> bool {
    &&& new.league_points < old.current_lp
    &&& new.wins + new.losses == old.wins + old.losses
    &&& old.current_lp - new.league_points != DECAY_LP_LOSS
}

/// The event that records the dodge from `old` to `new`.
pub open spec fn dodge_event(old: PlayerSnapshotRecord, new: LeagueItem) -> DodgeEventView {
    DodgeEventView {
        summoner_id: old.summoner_id@,
        region: old.region,
        lp_before: old.current_lp,
        lp_after: new.league_points,
        rank_tier: old.rank_tier,
        at_wins: old.wins,
        at_losses: old.losses,
    }
}

/// The dodge of one fetched player against the previous state, if there is one.
pub open spec fn dodge_of(
    previous: Map<Seq<char>, PlayerSnapshotRecord>,
    entry: (LeagueItem, RankTier),
) -> Option<DodgeEventView> {
    let id = entry.0.summoner_id@;
    if previous.contains_key(id) && is_dodge(previous[id], entry.0) {
        Some(dodge_event(previous[id], entry.0))
    } else {
        None
    }
}

/// The dodges of all fetched players, in the order of `current`.
pub open spec fn dodge_events(
    previous: Map<Seq<char>, PlayerSnapshotRecord>,
    current: Seq<(LeagueItem, RankTier)>,
) -> Seq<DodgeEventView> {
    current.filter_map(|entry: (LeagueItem, RankTier)| dodge_of(previous, entry))
}

/// Decides `is_dodge` without overflow.
pub fn check_dodge(old: &PlayerSnapshotRecord, new: &LeagueItem) -> (dodged: bool)
    ensures
        dodged == is_dodge(*old, *new),
{
    let old_games_played: i64 = old.wins as i64 + old.losses as i64;
    let new_games_played: i64 = new.wins as i64 + new.losses as i64;
    new.league_points < old.current_lp && new_games_played == old_games_played && old.current_lp as i64
        - new.league_points as i64 != DECAY_LP_LOSS as i64
}

/// Finds the dodges between the previous state `db_players` and the fetched
/// snapshot `api_players`: one event for each fetched player who is present in
/// the previous state and whose step is a dodge, in the order of the snapshot.
pub fn find_dodges(
    db_players: &PlayerMap<PlayerSnapshotRecord>,
    api_players: &PlayerMap<(LeagueItem, RankTier)>,
) -> (dodges: Vec<DodgeEvent>)
    ensures
        views(dodges@) == dodge_events(db_players@, api_players.values()),
{
    let mut dodges: Vec<DodgeEvent> = Vec::new();
    let n: usize = api_players.len();
    let mut i: usize = 0;
    assert(api_players.values().take(0) =~= Seq::empty());
    assert(views(dodges@) =~= Seq::empty());
    while i < n
        invariant
            i <= n,
            n == api_players.values().len(),
            views(dodges@) == dodge_events(db_players@, api_players.values().take(i as int)),
        decreases n - i,
    {
        let new_data = &api_players.value_at(i).0;
        let ghost before = dodges@;
        proof {
            api_players.values().lemma_filter_map_take_succ(
                |entry: (LeagueItem, RankTier)| dodge_of(db_players@, entry),
                i as int,
            );
        }
        match db_players.get(new_data.summoner_id.as_str()) {
            Some(old_data) => {
                if check_dodge(old_data, new_data) {
                    let dodge = DodgeEvent {
                        summoner_id: old_data.summoner_id.clone(),
                        region: old_data.region,
                        lp_before: old_data.current_lp,
                        lp_after: new_data.league_points,
                        rank_tier: old_data.rank_tier,
                        at_wins: old_data.wins,
                        at_losses: old_data.losses,
                    };
                    dodges.push(dodge);
                    assert(views(dodges@) =~= views(before) + seq![dodge@]);
                }
            },
            None => {},
        }
        i = i + 1;
    }
    assert(api_players.values().take(n as int) =~= api_players.values());
    dodges
}

/// Dodge detection, player by player. The events of a snapshot are those of
/// the players before player `i`, then those of player `i`, then those of the
/// players after. A player `i` who is present in the previous state gives
/// exactly one event, with the league points before and after, if the games
/// played are equal, the league points fell and the loss is not 75; and gives
/// no event if the loss is 75, if the games played differ, or if the league
/// points did not fall.
pub proof fn lemma_dodge_detection(
    previous: Map<Seq<char>, PlayerSnapshotRecord>,
    current: Seq<(LeagueItem, RankTier)>,
    i: int,
)
    requires
        0 <= i < current.len(),
        previous.contains_key(current[i].0.summoner_id@),
    ensures
        dodge_events(previous, current) == dodge_events(previous, current.take(i)) + dodge_events(
            previous,
            seq![current[i]],
        ) + dodge_events(previous, current.skip(i + 1)),
        ({
            let old = previous[current[i].0.summoner_id@];
            let new = current[i].0;
            let own = dodge_events(previous, seq![current[i]]);
            &&& new.wins + new.losses == old.wins + old.losses && new.league_points
                < old.current_lp && old.current_lp - new.league_points != 75 ==> own.len() == 1
                && own[0].lp_before == old.current_lp && own[0].lp_after == new.league_points
                && own[0] == dodge_event(old, new)
            &&& old.current_lp - new.league_points == 75 ==> own.len() == 0
            &&& new.wins + new.losses != old.wins + old.losses ==> own.len() == 0
            &&& new.league_points >= old.current_lp ==> own.len() == 0
        }),
{
    lemma_filter_map_split(
        current,
        |entry: (LeagueItem, RankTier)| dodge_of(previous, entry),
        i,
    );
}

/// A fetched player who is not in the previous state gives no dodge.
pub proof fn lemma_no_dodge_of_new_player(
    previous: Map<Seq<char>, PlayerSnapshotRecord>,
    current: Seq<(LeagueItem, RankTier)>,
    i: int,
)
    requires
        0 <= i < current.len(),
        !previous.contains_key(current[i].0.summoner_id@),
    ensures
        dodge_events(previous, current) == dodge_events(previous, current.take(i)) + dodge_events(
            previous,
            current.skip(i + 1),
        ),
{
    lemma_filter_map_split(
        current,
        |entry: (LeagueItem, RankTier)| dodge_of(previous, entry),
        i,
    );
}

/// Detection is a function of the two snapshots: two runs on the same previous
/// state and the same fetched snapshot find the same dodges.
pub proof fn lemma_dodges_repeatable(
    db_players: PlayerMap<PlayerSnapshotRecord>,
    api_players: PlayerMap<(LeagueItem, RankTier)>,
    first: Vec<DodgeEvent>,
    second: Vec<DodgeEvent>,
)
    requires
        views(first@) == dodge_events(db_players@, api_players.values()),
        views(second@) == dodge_events(db_players@, api_players.values()),
    ensures
        views(first@) == views(second@),
{
}

} // verus!
