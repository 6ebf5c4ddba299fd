//! What holds of a whole cycle: when detection finds nothing, and why a cycle
//! that is run again on an unchanged leaderboard leaves no second event.
use vstd::prelude::*;
use crate::apex_tier_players::{keyed_by_id, records_keyed_by_id};
use crate::cycle::{Event, Phase, initial, lemma_quiet_cycle_commits, run};
use crate::dodges::{DodgeEventView, dodge_events, dodge_of, is_dodge};
use crate::model::{LeagueItem, PlayerSnapshotRecord, RankTier, Region, Timestamp};
use crate::player_map::PlayerMap;
use crate::promotions_demotions::{
    TierChangeView, any_after, demotion_events, demotion_of, is_demotion, is_promotion,
    promotion_events, promotion_of,
};
use crate::sequences::lemma_filter_map_distinct;

verus! {

/// No batch of events names a player twice. Where the fetched snapshot and
/// the previous state hold every player under their own id, the dodges of a
/// cycle are of players who differ from one another, and so are its
/// promotions and its demotions.
pub proof fn lemma_one_event_per_player(
    db_players: PlayerMap<PlayerSnapshotRecord>,
    api_players: PlayerMap<(LeagueItem, RankTier)>,
    demotions: PlayerMap<Vec<Timestamp>>,
    region: Region,
)
    requires
        db_players.wf(),
        api_players.wf(),
        keyed_by_id(api_players@),
        records_keyed_by_id(db_players@),
    ensures
        ({
            let dodges = dodge_events(db_players@, api_players.values());
            forall|i: int, j: int|
                0 <= i < j < dodges.len() ==> (#[trigger] dodges[i]).summoner_id != (
                #[trigger] dodges[j]).summoner_id
        }),
        ({
            let promotions = promotion_events(
                api_players.entries(),
                db_players@,
                demotions@,
                region,
            );
            forall|i: int, j: int|
                0 <= i < j < promotions.len() ==> (#[trigger] promotions[i]).summoner_id != (
                #[trigger] promotions[j]).summoner_id
        }),
        ({
            let found = demotion_events(db_players.entries(), api_players@, demotions@, region);
            forall|i: int, j: int|
                0 <= i < j < found.len() ==> (#[trigger] found[i]).summoner_id != (
                #[trigger] found[j]).summoner_id
        }),
{
    api_players.lemma_well_formed();
    db_players.lemma_well_formed();
    let fetched = api_players.values();
    assert forall|i: int| 0 <= i < fetched.len() implies (#[trigger] fetched[i]).0.summoner_id@
        == api_players.keys()[i] by {
        assert(api_players@.contains_key(api_players.keys()[i]));
    }
    lemma_filter_map_distinct(
        fetched,
        |entry: (LeagueItem, RankTier)| dodge_of(db_players@, entry),
        |entry: (LeagueItem, RankTier)| entry.0.summoner_id@,
        |dodge: DodgeEventView| dodge.summoner_id,
    );
    lemma_filter_map_distinct(
        api_players.entries(),
        |entry: (Seq<char>, (LeagueItem, RankTier))|
            promotion_of(entry, db_players@, demotions@, region),
        |entry: (Seq<char>, (LeagueItem, RankTier))| entry.0,
        |promotion: TierChangeView| promotion.summoner_id,
    );
    lemma_filter_map_distinct(
        db_players.entries(),
        |entry: (Seq<char>, PlayerSnapshotRecord)|
            demotion_of(entry, api_players@, demotions@, region),
        |entry: (Seq<char>, PlayerSnapshotRecord)| entry.0,
        |demotion: TierChangeView| demotion.summoner_id,
    );
}

/// Whether no player gives an event: no fetched player dodged or is a
/// promotion, and no player of the previous state who is missing from the
/// fetched snapshot is a demotion to record.
pub open spec fn nothing_to_report(
    previous: Map<Seq<char>, PlayerSnapshotRecord>,
    current: Map<Seq<char>, (LeagueItem, RankTier)>,
    history: Map<Seq<char>, Vec<Timestamp>>,
) -> bool {
    &&& forall|id: Seq<char>| #[trigger]
        current.contains_key(id) ==> dodge_of(previous, current[id]) is None && !is_promotion(
            id,
            previous,
            history,
        )
    &&& forall|id: Seq<char>| #[trigger]
        previous.contains_key(id) && !current.contains_key(id) ==> !is_demotion(
            previous[id],
            history,
        )
}

/// Where no player gives an event, detection finds none, whatever the order
/// of the players.
pub proof fn lemma_quiet_detection(
    db_players: PlayerMap<PlayerSnapshotRecord>,
    api_players: PlayerMap<(LeagueItem, RankTier)>,
    demotions: PlayerMap<Vec<Timestamp>>,
    region: Region,
)
    requires
        db_players.wf(),
        api_players.wf(),
        nothing_to_report(db_players@, api_players@, demotions@),
    ensures
        dodge_events(db_players@, api_players.values()) == Seq::<DodgeEventView>::empty(),
        promotion_events(api_players.entries(), db_players@, demotions@, region) == Seq::<
            TierChangeView,
        >::empty(),
        demotion_events(db_players.entries(), api_players@, demotions@, region) == Seq::<
            TierChangeView,
        >::empty(),
{
    api_players.lemma_well_formed();
    db_players.lemma_well_formed();
    let dodges = dodge_events(db_players@, api_players.values());
    if dodges.len() > 0 {
        api_players.values().lemma_filter_map_contains(
            |entry: (LeagueItem, RankTier)| dodge_of(db_players@, entry),
            dodges[0],
        );
        let entry = choose|entry: (LeagueItem, RankTier)| #[trigger]
            api_players.values().contains(entry) && dodge_of(db_players@, entry) == Some(
                dodges[0],
            );
        let i = choose|i: int|
            0 <= i < api_players.values().len() && api_players.values()[i] == entry;
        assert(api_players@.contains_key(api_players.keys()[i]));
    }
    let promotions = promotion_events(api_players.entries(), db_players@, demotions@, region);
    if promotions.len() > 0 {
        api_players.entries().lemma_filter_map_contains(
            |entry: (Seq<char>, (LeagueItem, RankTier))|
                promotion_of(entry, db_players@, demotions@, region),
            promotions[0],
        );
        let entry = choose|entry: (Seq<char>, (LeagueItem, RankTier))| #[trigger]
            api_players.entries().contains(entry) && promotion_of(
                entry,
                db_players@,
                demotions@,
                region,
            ) == Some(promotions[0]);
        let i = choose|i: int|
            0 <= i < api_players.entries().len() && api_players.entries()[i] == entry;
        assert(api_players@.contains_key(api_players.keys()[i]));
    }
    let found = demotion_events(db_players.entries(), api_players@, demotions@, region);
    if found.len() > 0 {
        db_players.entries().lemma_filter_map_contains(
            |entry: (Seq<char>, PlayerSnapshotRecord)|
                demotion_of(entry, api_players@, demotions@, region),
            found[0],
        );
        let entry = choose|entry: (Seq<char>, PlayerSnapshotRecord)| #[trigger]
            db_players.entries().contains(entry) && demotion_of(
                entry,
                api_players@,
                demotions@,
                region,
            ) == Some(found[0]);
        let i = choose|i: int|
            0 <= i < db_players.entries().len() && db_players.entries()[i] == entry;
        assert(db_players@.contains_key(db_players.keys()[i]));
    }
    assert(dodges =~= Seq::empty());
    assert(promotions =~= Seq::empty());
    assert(found =~= Seq::empty());
}

/// A cycle in which nothing changed is no error. Let the fetched snapshot be
/// equal to the previous state: the same players, each fetched entry under
/// its own id with the league points, wins and losses of the previous state;
/// and let no player have a demotion after the time of their previous state.
/// Then detection finds no dodge, no promotion and no demotion. If, besides,
/// no step fails and the count of dodges is reported as found, the cycle
/// reaches the commit after its ten steps.
pub proof fn lemma_unchanged_cycle(
    db_players: PlayerMap<PlayerSnapshotRecord>,
    api_players: PlayerMap<(LeagueItem, RankTier)>,
    demotions: PlayerMap<Vec<Timestamp>>,
    region: Region,
    events: Seq<Event>,
)
    requires
        db_players.wf(),
        api_players.wf(),
        keyed_by_id(api_players@),
        api_players@.dom() == db_players@.dom(),
        forall|id: Seq<char>| #[trigger]
            api_players@.contains_key(id) ==> api_players@[id].0.league_points
                == db_players@[id].current_lp && api_players@[id].0.wins == db_players@[id].wins
                && api_players@[id].0.losses == db_players@[id].losses,
        forall|id: Seq<char>| #[trigger]
            db_players@.contains_key(id) ==> !is_promotion(id, db_players@, demotions@),
        events.len() == 10,
        forall|k: int| 0 <= k < 10 ==> (#[trigger] events[k]).succeeded,
        events[3].found == dodge_events(db_players@, api_players.values()).len(),
    ensures
        dodge_events(db_players@, api_players.values()) == Seq::<DodgeEventView>::empty(),
        promotion_events(api_players.entries(), db_players@, demotions@, region) == Seq::<
            TierChangeView,
        >::empty(),
        demotion_events(db_players.entries(), api_players@, demotions@, region) == Seq::<
            TierChangeView,
        >::empty(),
        run(initial(region), events).phase == Phase::Commit,
{
    assert forall|id: Seq<char>| #[trigger] api_players@.contains_key(id) implies dodge_of(
        db_players@,
        api_players@[id],
    ) is None && !is_promotion(id, db_players@, demotions@) by {
        assert(db_players@.contains_key(id));
    }
    lemma_quiet_detection(db_players, api_players, demotions, region);
    lemma_quiet_cycle_commits(region, events);
}

/// Whether `after` is the state of a region once a cycle that fetched
/// `current` at the time `now` has been committed over `previous`: every
/// fetched player has a row with what was fetched and with `now` as the time
/// of the row, and the row of every other player is left as it was.
pub open spec fn is_state_after(
    previous: Map<Seq<char>, PlayerSnapshotRecord>,
    current: Map<Seq<char>, (LeagueItem, RankTier)>,
    now: Timestamp,
    after: Map<Seq<char>, PlayerSnapshotRecord>,
) -> bool {
    &&& forall|id: Seq<char>| #[trigger]
        after.contains_key(id) <==> previous.contains_key(id) || current.contains_key(id)
    &&& forall|id: Seq<char>| #[trigger]
        current.contains_key(id) ==> after[id].summoner_id@ == id && after[id].current_lp
            == current[id].0.league_points && after[id].wins == current[id].0.wins
            && after[id].losses == current[id].0.losses && after[id].rank_tier == current[id].1
            && after[id].updated_at == now
    &&& forall|id: Seq<char>| #[trigger]
        previous.contains_key(id) && !current.contains_key(id) ==> after[id] == previous[id]
}

/// The demotions that the history holds for player `id`.
pub open spec fn recorded(history: Map<Seq<char>, Vec<Timestamp>>, id: Seq<char>) -> Seq<
    Timestamp,
> {
    if history.contains_key(id) {
        history[id]@
    } else {
        Seq::empty()
    }
}

/// Whether `after` is the demotion history of a region once a cycle that
/// fetched `current` at the time `now` has been committed: every player whom
/// the cycle found demoted has one more demotion, at `now`, and the demotions
/// of every other player are left as they were.
pub open spec fn is_history_after(
    previous: Map<Seq<char>, PlayerSnapshotRecord>,
    current: Map<Seq<char>, (LeagueItem, RankTier)>,
    history: Map<Seq<char>, Vec<Timestamp>>,
    now: Timestamp,
    after: Map<Seq<char>, Vec<Timestamp>>,
) -> bool {
    forall|id: Seq<char>| #[trigger]
        recorded(after, id) == if previous.contains_key(id) && !current.contains_key(id)
            && is_demotion(previous[id], history) {
            recorded(history, id).push(now)
        } else {
            recorded(history, id)
        }
}

/// Every transition is reported once. Let the fetched snapshot and the
/// previous state hold every player under their own id, let a cycle be
/// committed at the time `now`, later than every time of the previous state
/// and not earlier than any recorded demotion, and let the next cycle fetch
/// the same leaderboard again. Then no player gives an event in the next cycle: the league points
/// did not fall, every fetched player is in the previous state with no
/// demotion after it, and every missing player has a demotion on record that
/// is later than their previous state.
pub proof fn lemma_repeated_cycle_is_quiet(
    previous: Map<Seq<char>, PlayerSnapshotRecord>,
    current: Map<Seq<char>, (LeagueItem, RankTier)>,
    history: Map<Seq<char>, Vec<Timestamp>>,
    now: Timestamp,
    next_previous: Map<Seq<char>, PlayerSnapshotRecord>,
    next_history: Map<Seq<char>, Vec<Timestamp>>,
)
    requires
        keyed_by_id(current),
        forall|id: Seq<char>| #[trigger]
            previous.contains_key(id) ==> previous[id].summoner_id@ == id
                && previous[id].updated_at.micros < now.micros,
        forall|id: Seq<char>, k: int|
            history.contains_key(id) && 0 <= k < history[id]@.len() ==> (
            #[trigger] history[id]@[k]).micros <= now.micros,
        is_state_after(previous, current, now, next_previous),
        is_history_after(previous, current, history, now, next_history),
    ensures
        nothing_to_report(next_previous, current, next_history),
{
    assert forall|id: Seq<char>| #[trigger] current.contains_key(id) implies dodge_of(
        next_previous,
        current[id],
    ) is None && !is_promotion(id, next_previous, next_history) by {
        assert(next_previous.contains_key(id));
        assert(current[id].0.summoner_id@ == id);
        assert(!is_dodge(next_previous[id], current[id].0));
        assert(recorded(next_history, id) == recorded(history, id));
        if next_history.contains_key(id) && any_after(
            next_history[id]@,
            next_previous[id].updated_at,
        ) {
            let k = choose|k: int|
                0 <= k < next_history[id]@.len() && (#[trigger] next_history[id]@[k]).micros
                    > now.micros;
            assert(history.contains_key(id));
            assert(history[id]@[k].micros <= now.micros);
        }
    }
    assert forall|id: Seq<char>| #[trigger]
        next_previous.contains_key(id) && !current.contains_key(id) implies !is_demotion(
        next_previous[id],
        next_history,
    ) by {
        assert(previous.contains_key(id));
        let player = previous[id];
        assert(next_previous[id] == player);
        if is_demotion(player, history) {
            let stamps = recorded(next_history, id);
            assert(stamps == recorded(history, id).push(now));
            assert(stamps.len() > 0);
            assert(next_history.contains_key(id));
            assert(stamps[stamps.len() - 1] == now);
        } else {
            assert(recorded(next_history, id) == recorded(history, id));
            let k = choose|k: int|
                0 <= k < history[id]@.len() && (#[trigger] history[id]@[k]).micros
                    > player.updated_at.micros;
            assert(recorded(history, id).len() > 0);
            assert(next_history.contains_key(id));
            assert(next_history[id]@[k].micros > player.updated_at.micros);
        }
    }
}

} // verus!
