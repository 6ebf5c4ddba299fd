//! Promotion and demotion detection against the recorded demotion history.
use vstd::prelude::*;
use crate::model::{LeagueItem, PlayerSnapshotRecord, RankTier, Region, Timestamp};
use crate::player_map::{PlayerMap, keys_after, lemma_insert_next};
use crate::sequences::{lemma_filter_map_split, views};

verus! {

/// A player entered the apex tiers, or came back to them.
#[derive(Clone, Debug, PartialEq, Eq)]
pub struct PromotionEvent {
    pub summoner_id: String,
    pub region: Region,
    pub at_wins: i32,
    pub at_losses: i32,
}

/// A player fell out of the apex tiers.
#[derive(Clone, Debug, PartialEq, Eq)]
pub struct DemotionEvent {
    pub summoner_id: String,
    pub region: Region,
    pub at_wins: i32,
    pub at_losses: i32,
}

/// A promotion or demotion event as a mathematical value.
pub struct TierChangeView {
    pub summoner_id: Seq<char>,
    pub region: Region,
    pub at_wins: i32,
    pub at_losses: i32,
}

impl View for PromotionEvent {
    type V = TierChangeView;

    open spec fn view(&self) -> TierChangeView {
        TierChangeView {
            summoner_id: self.summoner_id@,
            region: self.region,
            at_wins: self.at_wins,
            at_losses: self.at_losses,
        }
    }
}

impl View for DemotionEvent {
    type V = TierChangeView;

    open spec fn view(&self) -> TierChangeView {
        TierChangeView {
            summoner_id: self.summoner_id@,
            region: self.region,
            at_wins: self.at_wins,
            at_losses: self.at_losses,
        }
    }
}

/// A recorded demotion, as far as detection reads it.
#[derive(Clone, Debug, PartialEq, Eq)]
pub struct DemotionRecord {
    pub summoner_id: String,
    pub created_at: Timestamp,
}

/// The times of the demotions of player `id` among `rows`, in their order.
pub open spec fn demotion_times(rows: Seq<DemotionRecord>, id: Seq<char>) -> Seq<Timestamp> {
    rows.filter_map(
        |row: DemotionRecord|
            if row.summoner_id@ == id {
                Some(row.created_at)
            } else {
                None
            },
    )
}

/// The recorded demotions, each under its player id.
pub open spec fn demotion_pairs(rows: Seq<DemotionRecord>) -> Seq<(Seq<char>, Timestamp)> {
    Seq::new(rows.len(), |i: int| (rows[i].summoner_id@, rows[i].created_at))
}

/// The timestamps `stamps` followed by `last`.
fn with_last(stamps: &Vec<Timestamp>, last: Timestamp) -> (longer: Vec<Timestamp>)
    ensures
        longer@ == stamps@.push(last),
{
    let mut longer: Vec<Timestamp> = Vec::new();
    let mut i: usize = 0;
    while i < stamps.len()
        invariant
            i <= stamps.len(),
            longer@ == stamps@.take(i as int),
        decreases stamps.len() - i,
    {
        longer.push(stamps[i]);
        assert(stamps@.take(i + 1) =~= stamps@.take(i as int).push(stamps@[i as int]));
        i = i + 1;
    }
    assert(stamps@.take(stamps.len() as int) =~= stamps@);
    longer.push(last);
    longer
}

/// Groups the recorded demotions of a region by player: the history holds
/// exactly the players that have a demotion, each with the times of their
/// demotions in the order of `rows`, and lists the players in the order in
/// which `rows` first names them.
pub fn group_demotions(rows: &Vec<DemotionRecord>) -> (history: PlayerMap<Vec<Timestamp>>)
    ensures
        forall|id: Seq<char>| #[trigger]
            history@.contains_key(id) <==> demotion_times(rows@, id).len() > 0,
        forall|id: Seq<char>| #[trigger]
            history@.contains_key(id) ==> history@[id]@ == demotion_times(rows@, id),
        history.keys() == keys_after(Seq::<Seq<char>>::empty(), demotion_pairs(rows@)),
{
    let mut history: PlayerMap<Vec<Timestamp>> = PlayerMap::new();
    let ghost pairs = demotion_pairs(rows@);
    let ghost none = Seq::<Seq<char>>::empty();
    let mut i: usize = 0;
    assert(rows@.take(0) =~= Seq::empty());
    assert(pairs.take(0) =~= Seq::empty());
    while i < rows.len()
        invariant
            i <= rows.len(),
            pairs == demotion_pairs(rows@),
            none == Seq::<Seq<char>>::empty(),
            forall|id: Seq<char>| #[trigger]
                history@.contains_key(id) <==> demotion_times(rows@.take(i as int), id).len() > 0,
            forall|id: Seq<char>| #[trigger]
                history@.contains_key(id) ==> history@[id]@ == demotion_times(
                    rows@.take(i as int),
                    id,
                ),
            history.keys() == keys_after(none, pairs.take(i as int)),
        decreases rows.len() - i,
    {
        let row = &rows[i];
        let ghost before = history@;
        let stamps = match history.get(row.summoner_id.as_str()) {
            Some(stamps) => with_last(stamps, row.created_at),
            None => {
                let mut stamps: Vec<Timestamp> = Vec::new();
                stamps.push(row.created_at);
                stamps
            },
        };
        proof {
            lemma_insert_next(Map::<Seq<char>, Timestamp>::empty(), none, pairs, i as int);
            assert forall|id: Seq<char>|
                demotion_times(rows@.take(i + 1), id) == if row.summoner_id@ == id {
                    demotion_times(rows@.take(i as int), id).push(row.created_at)
                } else {
                    demotion_times(rows@.take(i as int), id)
                } by {
                rows@.lemma_filter_map_take_succ(
                    |row: DemotionRecord|
                        if row.summoner_id@ == id {
                            Some(row.created_at)
                        } else {
                            None
                        },
                    i as int,
                );
            }
            assert(stamps@ =~= demotion_times(rows@.take(i + 1), row.summoner_id@));
        }
        history.insert(row.summoner_id.clone(), stamps);
        proof {
            assert forall|id: Seq<char>| #[trigger]
                history@.contains_key(id) <==> demotion_times(rows@.take(i + 1), id).len()
                    > 0 by {
                assert(before.contains_key(id) <==> demotion_times(rows@.take(i as int), id).len()
                    > 0);
            }
            assert forall|id: Seq<char>| #[trigger] history@.contains_key(id) implies history@[id]@
                == demotion_times(rows@.take(i + 1), id) by {
                if id != row.summoner_id@ {
                    assert(before.contains_key(id));
                }
            }
        }
        i = i + 1;
    }
    assert(rows@.take(rows.len() as int) =~= rows@);
    assert(pairs.take(rows.len() as int) =~= pairs);
    history
}

/// Whether some timestamp of `stamps`, wherever it stands, lies strictly after
/// `cutoff`.
pub open spec fn any_after(stamps: Seq<Timestamp>, cutoff: Timestamp) -> bool {
    exists|i: int| 0 <= i < stamps.len() && (#[trigger] stamps[i]).micros > cutoff.micros
}

/// Whether the fetched player `id` is a promotion: the player is new to the
/// previous state, or was demoted after the previous state last saw them.
pub open spec fn is_promotion(
    id: Seq<char>,
    previous: Map<Seq<char>, PlayerSnapshotRecord>,
    history: Map<Seq<char>, Vec<Timestamp>>,
) -> bool {
    !previous.contains_key(id) || (history.contains_key(id) && any_after(
        history[id]@,
        previous[id].updated_at,
    ))
}

/// Whether `player`, who is missing from the fetched snapshot, is a demotion
/// that has not been recorded yet: no recorded demotion of the player lies
/// after the previous state last saw them.
pub open spec fn is_demotion(
    player: PlayerSnapshotRecord,
    history: Map<Seq<char>, Vec<Timestamp>>,
) -> bool {
    !history.contains_key(player.summoner_id@) || !any_after(
        history[player.summoner_id@]@,
        player.updated_at,
    )
}

/// Decides `any_after` by looking at every timestamp.
pub fn has_any_after(stamps: &Vec<Timestamp>, cutoff: &Timestamp) -> (found: bool)
    ensures
        found == any_after(stamps@, *cutoff),
{
    let mut i: usize = 0;
    while i < stamps.len()
        invariant
            i <= stamps.len(),
            forall|j: int| 0 <= j < i ==> (#[trigger] stamps@[j]).micros <= cutoff.micros,
        decreases stamps.len() - i,
    {
        if stamps[i].is_after(cutoff) {
            return true;
        }
        i = i + 1;
    }
    false
}

/// Whether the fetched player `summoner_id` has been promoted.
pub fn has_promoted(
    summoner_id: &String,
    db_players: &PlayerMap<PlayerSnapshotRecord>,
    demotions: &PlayerMap<Vec<Timestamp>>,
) -> (promoted: bool)
    ensures
        promoted == is_promotion(summoner_id@, db_players@, demotions@),
{
    match db_players.get(summoner_id.as_str()) {
        None => true,
        Some(db_player) => match demotions.get(summoner_id.as_str()) {
            Some(stamps) => has_any_after(stamps, &db_player.updated_at),
            None => false,
        },
    }
}

/// Whether a player who is only in the previous state has been demoted and the
/// demotion is still to be recorded.
pub fn has_demoted(
    player_only_in_db: &PlayerSnapshotRecord,
    demotions: &PlayerMap<Vec<Timestamp>>,
) -> (demoted: bool)
    ensures
        demoted == is_demotion(*player_only_in_db, demotions@),
{
    match demotions.get(player_only_in_db.summoner_id.as_str()) {
        None => true,
        Some(stamps) => !has_any_after(stamps, &player_only_in_db.updated_at),
    }
}

/// The promotion of one fetched player, if the player is one.
pub open spec fn promotion_of(
    entry: (Seq<char>, (LeagueItem, RankTier)),
    previous: Map<Seq<char>, PlayerSnapshotRecord>,
    history: Map<Seq<char>, Vec<Timestamp>>,
    region: Region,
) -> Option<TierChangeView> {
    if is_promotion(entry.0, previous, history) {
        Some(
            TierChangeView {
                summoner_id: entry.0,
                region,
                at_wins: entry.1.0.wins,
                at_losses: entry.1.0.losses,
            },
        )
    } else {
        None
    }
}

/// The promotions among the fetched players, in the order of `current`.
pub open spec fn promotion_events(
    current: Seq<(Seq<char>, (LeagueItem, RankTier))>,
    previous: Map<Seq<char>, PlayerSnapshotRecord>,
    history: Map<Seq<char>, Vec<Timestamp>>,
    region: Region,
) -> Seq<TierChangeView> {
    current.filter_map(
        |entry: (Seq<char>, (LeagueItem, RankTier))|
            promotion_of(entry, previous, history, region),
    )
}

/// The demotion of one player of the previous state, if the player is missing
/// from the fetched snapshot and the demotion is still to be recorded.
pub open spec fn demotion_of(
    entry: (Seq<char>, PlayerSnapshotRecord),
    current: Map<Seq<char>, (LeagueItem, RankTier)>,
    history: Map<Seq<char>, Vec<Timestamp>>,
    region: Region,
) -> Option<TierChangeView> {
    if !current.contains_key(entry.0) && is_demotion(entry.1, history) {
        Some(
            TierChangeView {
                summoner_id: entry.0,
                region,
                at_wins: entry.1.wins,
                at_losses: entry.1.losses,
            },
        )
    } else {
        None
    }
}

/// The demotions among the players of the previous state, in its order.
pub open spec fn demotion_events(
    previous: Seq<(Seq<char>, PlayerSnapshotRecord)>,
    current: Map<Seq<char>, (LeagueItem, RankTier)>,
    history: Map<Seq<char>, Vec<Timestamp>>,
    region: Region,
) -> Seq<TierChangeView> {
    previous.filter_map(
        |entry: (Seq<char>, PlayerSnapshotRecord)| demotion_of(entry, current, history, region),
    )
}

/// Finds the promotions of a cycle: one event for each fetched player who is
/// new to the previous state or was demoted since it last saw them.
pub fn find_promotions(
    api_players: &PlayerMap<(LeagueItem, RankTier)>,
    db_players: &PlayerMap<PlayerSnapshotRecord>,
    demotions: &PlayerMap<Vec<Timestamp>>,
    region: Region,
) -> (promotions: Vec<PromotionEvent>)
    ensures
        views(promotions@) == promotion_events(
            api_players.entries(),
            db_players@,
            demotions@,
            region,
        ),
{
    let mut promotions: Vec<PromotionEvent> = Vec::new();
    let n: usize = api_players.len();
    let mut i: usize = 0;
    assert(api_players.entries().take(0) =~= Seq::empty());
    assert(views(promotions@) =~= Seq::empty());
    while i < n
        invariant
            i <= n,
            n == api_players.keys().len(),
            n == api_players.values().len(),
            views(promotions@) == promotion_events(
                api_players.entries().take(i as int),
                db_players@,
                demotions@,
                region,
            ),
        decreases n - i,
    {
        let summoner_id = api_players.key_at(i);
        let stats = &api_players.value_at(i).0;
        let ghost before = promotions@;
        proof {
            api_players.entries().lemma_filter_map_take_succ(
                |entry: (Seq<char>, (LeagueItem, RankTier))|
                    promotion_of(entry, db_players@, demotions@, region),
                i as int,
            );
        }
        if has_promoted(summoner_id, db_players, demotions) {
            let promotion = PromotionEvent {
                summoner_id: summoner_id.clone(),
                region,
                at_wins: stats.wins,
                at_losses: stats.losses,
            };
            promotions.push(promotion);
            assert(views(promotions@) =~= views(before) + seq![promotion@]);
        }
        i = i + 1;
    }
    assert(api_players.entries().take(n as int) =~= api_players.entries());
    promotions
}

/// Finds the demotions of a cycle: one event for each player of the previous
/// state who is missing from the fetched snapshot and whose demotion is not
/// in the history yet.
pub fn find_demotions(
    api_players: &PlayerMap<(LeagueItem, RankTier)>,
    db_players: &PlayerMap<PlayerSnapshotRecord>,
    demotions: &PlayerMap<Vec<Timestamp>>,
    region: Region,
) -> (found: Vec<DemotionEvent>)
    ensures
        views(found@) == demotion_events(db_players.entries(), api_players@, demotions@, region),
{
    let mut found: Vec<DemotionEvent> = Vec::new();
    let n: usize = db_players.len();
    let mut i: usize = 0;
    assert(db_players.entries().take(0) =~= Seq::empty());
    assert(views(found@) =~= Seq::empty());
    while i < n
        invariant
            i <= n,
            n == db_players.keys().len(),
            n == db_players.values().len(),
            views(found@) == demotion_events(
                db_players.entries().take(i as int),
                api_players@,
                demotions@,
                region,
            ),
        decreases n - i,
    {
        let summoner_id = db_players.key_at(i);
        let player = db_players.value_at(i);
        let ghost before = found@;
        proof {
            db_players.entries().lemma_filter_map_take_succ(
                |entry: (Seq<char>, PlayerSnapshotRecord)|
                    demotion_of(entry, api_players@, demotions@, region),
                i as int,
            );
        }
        if !api_players.contains_key(summoner_id.as_str()) && has_demoted(player, demotions) {
            let demotion = DemotionEvent {
                summoner_id: summoner_id.clone(),
                region,
                at_wins: player.wins,
                at_losses: player.losses,
            };
            found.push(demotion);
            assert(views(found@) =~= views(before) + seq![demotion@]);
        }
        i = i + 1;
    }
    assert(db_players.entries().take(n as int) =~= db_players.entries());
    found
}

/// Promotion detection. A player who is absent from the previous state is
/// always a promotion. A player who is present in it and has no demotion
/// history is never one. A player who is present in it and has a demotion
/// strictly after the time of their previous state is one, however many older
/// demotions the history holds besides and wherever in the history it stands.
pub proof fn lemma_promotion_detection(
    id: Seq<char>,
    previous: Map<Seq<char>, PlayerSnapshotRecord>,
    history: Map<Seq<char>, Vec<Timestamp>>,
)
    ensures
        !previous.contains_key(id) ==> is_promotion(id, previous, history),
        previous.contains_key(id) && !history.contains_key(id) ==> !is_promotion(
            id,
            previous,
            history,
        ),
        previous.contains_key(id) && history.contains_key(id) && history[id]@.len() == 0
            ==> !is_promotion(id, previous, history),
        forall|k: int|
            previous.contains_key(id) && history.contains_key(id) && 0 <= k < history[id]@.len()
                && (#[trigger] history[id]@[k]).micros > previous[id].updated_at.micros
                ==> is_promotion(id, previous, history),
        previous.contains_key(id) && history.contains_key(id) && (forall|k: int|
            0 <= k < history[id]@.len() ==> (#[trigger] history[id]@[k]).micros
                <= previous[id].updated_at.micros) ==> !is_promotion(id, previous, history),
{
}

/// Promotion events, player by player: the events of a snapshot are those of
/// the players before player `i`, then the one event of player `i` if the
/// player is a promotion, with the wins and losses fetched, then those of the
/// players after.
pub proof fn lemma_promotion_events(
    current: Seq<(Seq<char>, (LeagueItem, RankTier))>,
    previous: Map<Seq<char>, PlayerSnapshotRecord>,
    history: Map<Seq<char>, Vec<Timestamp>>,
    region: Region,
    i: int,
)
    requires
        0 <= i < current.len(),
    ensures
        promotion_events(current, previous, history, region) == promotion_events(
            current.take(i),
            previous,
            history,
            region,
        ) + promotion_events(seq![current[i]], previous, history, region) + promotion_events(
            current.skip(i + 1),
            previous,
            history,
            region,
        ),
        promotion_events(seq![current[i]], previous, history, region) == if is_promotion(
            current[i].0,
            previous,
            history,
        ) {
            seq![
                TierChangeView {
                    summoner_id: current[i].0,
                    region,
                    at_wins: current[i].1.0.wins,
                    at_losses: current[i].1.0.losses,
                },
            ]
        } else {
            Seq::empty()
        },
{
    lemma_filter_map_split(
        current,
        |entry: (Seq<char>, (LeagueItem, RankTier))|
            promotion_of(entry, previous, history, region),
        i,
    );
}

/// Demotion detection. A player with no demotion history is a demotion to
/// record. So is a player whose every recorded demotion is at or before the
/// time of their previous state. A player with a recorded demotion strictly
/// after that time is none: the demotion has been recorded already.
pub proof fn lemma_demotion_detection(
    player: PlayerSnapshotRecord,
    history: Map<Seq<char>, Vec<Timestamp>>,
)
    ensures
        !history.contains_key(player.summoner_id@) ==> is_demotion(player, history),
        history.contains_key(player.summoner_id@) && (forall|k: int|
            0 <= k < history[player.summoner_id@]@.len() ==> (
            #[trigger] history[player.summoner_id@]@[k]).micros <= player.updated_at.micros)
            ==> is_demotion(player, history),
        forall|k: int|
            history.contains_key(player.summoner_id@) && 0 <= k
                < history[player.summoner_id@]@.len() && (
            #[trigger] history[player.summoner_id@]@[k]).micros > player.updated_at.micros
                ==> !is_demotion(player, history),
{
}

/// Demotion events, player by player: the events of a previous state are
/// those of the players before player `i`, then those of player `i`, then
/// those of the players after. Player `i` gives exactly one event, with the
/// wins and losses of the previous state, if the player is missing from the
/// fetched snapshot and is a demotion to record, and no event otherwise.
pub proof fn lemma_demotion_events(
    previous: Seq<(Seq<char>, PlayerSnapshotRecord)>,
    current: Map<Seq<char>, (LeagueItem, RankTier)>,
    history: Map<Seq<char>, Vec<Timestamp>>,
    region: Region,
    i: int,
)
    requires
        0 <= i < previous.len(),
    ensures
        demotion_events(previous, current, history, region) == demotion_events(
            previous.take(i),
            current,
            history,
            region,
        ) + demotion_events(seq![previous[i]], current, history, region) + demotion_events(
            previous.skip(i + 1),
            current,
            history,
            region,
        ),
        demotion_events(seq![previous[i]], current, history, region) == if !current.contains_key(
            previous[i].0,
        ) && is_demotion(previous[i].1, history) {
            seq![
                TierChangeView {
                    summoner_id: previous[i].0,
                    region,
                    at_wins: previous[i].1.wins,
                    at_losses: previous[i].1.losses,
                },
            ]
        } else {
            Seq::empty()
        },
{
    lemma_filter_map_split(
        previous,
        |entry: (Seq<char>, PlayerSnapshotRecord)| demotion_of(entry, current, history, region),
        i,
    );
}

/// Detection is a function of the two snapshots and the history: two runs on
/// the same three find the same promotions and the same demotions.
pub proof fn lemma_tier_changes_repeatable(
    api_players: PlayerMap<(LeagueItem, RankTier)>,
    db_players: PlayerMap<PlayerSnapshotRecord>,
    demotions: PlayerMap<Vec<Timestamp>>,
    region: Region,
    first: (Vec<PromotionEvent>, Vec<DemotionEvent>),
    second: (Vec<PromotionEvent>, Vec<DemotionEvent>),
)
    requires
        views(first.0@) == promotion_events(
            api_players.entries(),
            db_players@,
            demotions@,
            region,
        ),
        views(second.0@) == promotion_events(
            api_players.entries(),
            db_players@,
            demotions@,
            region,
        ),
        views(first.1@) == demotion_events(db_players.entries(), api_players@, demotions@, region),
        views(second.1@) == demotion_events(db_players.entries(), api_players@, demotions@, region),
    ensures
        views(first.0@) == views(second.0@),
        views(first.1@) == views(second.1@),
{
}

} // verus!
