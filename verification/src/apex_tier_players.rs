//! The two snapshots of a cycle: the fetched leaderboard, merged from its
//! three tiers, and the previous state, indexed by player; and the rows that
//! make the fetched leaderboard the next previous state.
use vstd::prelude::*;
use crate::model::{LeagueItem, Lookup, PlayerSnapshotRecord, RankTier, Region};
use crate::player_map::{
    PlayerMap, inserted_all, keys_after, last_with_key, lemma_insert_next, lemma_inserted_concat,
    lemma_inserted_keys, lemma_inserted_last_wins, lemma_last_with_key,
};
use crate::sequences::views;

verus! {

/// The state of one fetched player as it is written to storage.
#[derive(Clone, Debug, PartialEq, Eq)]
pub struct ApexTierPlayerRow {
    pub summoner_id: String,
    pub region: Region,
    pub rank_tier: RankTier,
    pub wins: i32,
    pub losses: i32,
    pub current_lp: i32,
}

/// A player row as a mathematical value.
pub struct ApexTierPlayerRowView {
    pub summoner_id: Seq<char>,
    pub region: Region,
    pub rank_tier: RankTier,
    pub wins: i32,
    pub losses: i32,
    pub current_lp: i32,
}

impl View for ApexTierPlayerRow {
    type V = ApexTierPlayerRowView;

    open spec fn view(&self) -> ApexTierPlayerRowView {
        ApexTierPlayerRowView {
            summoner_id: self.summoner_id@,
            region: self.region,
            rank_tier: self.rank_tier,
            wins: self.wins,
            losses: self.losses,
            current_lp: self.current_lp,
        }
    }
}

/// The entries of one tier, each under its player id and marked with the tier.
pub open spec fn tier_pairs(entries: Seq<LeagueItem>, tier: RankTier) -> Seq<
    (Seq<char>, (LeagueItem, RankTier)),
> {
    Seq::new(entries.len(), |i: int| (entries[i].summoner_id@, (entries[i], tier)))
}

/// The entries of the three tiers in the order in which they are merged:
/// Master, then Grandmaster, then Challenger.
pub open spec fn merge_order(
    master: Seq<LeagueItem>,
    grandmaster: Seq<LeagueItem>,
    challenger: Seq<LeagueItem>,
) -> Seq<(Seq<char>, (LeagueItem, RankTier))> {
    tier_pairs(master, RankTier::Master) + tier_pairs(grandmaster, RankTier::Grandmaster)
        + tier_pairs(challenger, RankTier::Challenger)
}

/// The rows of the previous state, each under its player id.
pub open spec fn record_pairs(rows: Seq<PlayerSnapshotRecord>) -> Seq<
    (Seq<char>, PlayerSnapshotRecord),
> {
    Seq::new(rows.len(), |i: int| (rows[i].summoner_id@, rows[i]))
}

/// Whether every entry of a fetched snapshot stands under its own player id.
pub open spec fn keyed_by_id(players: Map<Seq<char>, (LeagueItem, RankTier)>) -> bool {
    forall|id: Seq<char>| #[trigger]
        players.contains_key(id) ==> players[id].0.summoner_id@ == id
}

/// Putting entries under their own ids into a snapshot that is keyed by id
/// gives one that is.
pub proof fn lemma_inserted_keyed_by_id(
    players: Map<Seq<char>, (LeagueItem, RankTier)>,
    pairs: Seq<(Seq<char>, (LeagueItem, RankTier))>,
)
    requires
        keyed_by_id(players),
        forall|i: int| 0 <= i < pairs.len() ==> (#[trigger] pairs[i]).1.0.summoner_id@ == pairs[i].0,
    ensures
        keyed_by_id(inserted_all(players, pairs)),
    decreases pairs.len(),
{
    if pairs.len() > 0 {
        lemma_inserted_keyed_by_id(players, pairs.drop_last());
        assert(pairs.last() == pairs[pairs.len() - 1]);
    }
}

/// Whether every row of a previous state stands under its own player id.
pub open spec fn records_keyed_by_id(players: Map<Seq<char>, PlayerSnapshotRecord>) -> bool {
    forall|id: Seq<char>| #[trigger] players.contains_key(id) ==> players[id].summoner_id@ == id
}

/// Putting rows under their own ids into a previous state that is keyed by id
/// gives one that is.
pub proof fn lemma_inserted_records_keyed_by_id(
    players: Map<Seq<char>, PlayerSnapshotRecord>,
    pairs: Seq<(Seq<char>, PlayerSnapshotRecord)>,
)
    requires
        records_keyed_by_id(players),
        forall|i: int| 0 <= i < pairs.len() ==> (#[trigger] pairs[i]).1.summoner_id@ == pairs[i].0,
    ensures
        records_keyed_by_id(inserted_all(players, pairs)),
    decreases pairs.len(),
{
    if pairs.len() > 0 {
        lemma_inserted_records_keyed_by_id(players, pairs.drop_last());
        assert(pairs.last() == pairs[pairs.len() - 1]);
    }
}

/// Puts the entries of one tier into `players`.
fn insert_tier(
    players: &mut PlayerMap<(LeagueItem, RankTier)>,
    entries: &Vec<LeagueItem>,
    tier: RankTier,
)
    ensures
        final(players)@ == inserted_all(old(players)@, tier_pairs(entries@, tier)),
        final(players).keys() == keys_after(old(players).keys(), tier_pairs(entries@, tier)),
{
    let ghost pairs = tier_pairs(entries@, tier);
    let mut i: usize = 0;
    assert(pairs.take(0) =~= Seq::empty());
    while i < entries.len()
        invariant
            i <= entries.len(),
            pairs == tier_pairs(entries@, tier),
            players@ == inserted_all(old(players)@, pairs.take(i as int)),
            players.keys() == keys_after(old(players).keys(), pairs.take(i as int)),
        decreases entries.len() - i,
    {
        let entry = &entries[i];
        let copy = LeagueItem {
            summoner_id: entry.summoner_id.clone(),
            league_points: entry.league_points,
            wins: entry.wins,
            losses: entry.losses,
        };
        proof {
            lemma_insert_next(old(players)@, old(players).keys(), pairs, i as int);
        }
        players.insert(entry.summoner_id.clone(), (copy, tier));
        i = i + 1;
    }
    assert(pairs.take(entries.len() as int) =~= pairs);
}

/// Merges the three fetched tiers into one snapshot keyed by player id, and
/// counts the entries of each tier. A player who stands in two tiers keeps the
/// entry of the tier that is merged later.
pub fn merge_tiers(
    master: &Vec<LeagueItem>,
    grandmaster: &Vec<LeagueItem>,
    challenger: &Vec<LeagueItem>,
) -> (merged: (PlayerMap<(LeagueItem, RankTier)>, (usize, usize, usize)))
    ensures
        merged.0@ == inserted_all(
            Map::<Seq<char>, (LeagueItem, RankTier)>::empty(),
            merge_order(master@, grandmaster@, challenger@),
        ),
        merged.0.keys() == keys_after(
            Seq::<Seq<char>>::empty(),
            merge_order(master@, grandmaster@, challenger@),
        ),
        merged.1 == (master.len(), grandmaster.len(), challenger.len()),
        keyed_by_id(merged.0@),
{
    let mut players: PlayerMap<(LeagueItem, RankTier)> = PlayerMap::new();
    insert_tier(&mut players, master, RankTier::Master);
    insert_tier(&mut players, grandmaster, RankTier::Grandmaster);
    insert_tier(&mut players, challenger, RankTier::Challenger);
    proof {
        let empty = Map::<Seq<char>, (LeagueItem, RankTier)>::empty();
        let none = Seq::<Seq<char>>::empty();
        let m = tier_pairs(master@, RankTier::Master);
        let g = tier_pairs(grandmaster@, RankTier::Grandmaster);
        let c = tier_pairs(challenger@, RankTier::Challenger);
        lemma_inserted_concat(empty, none, m, g);
        lemma_inserted_concat(empty, none, m + g, c);
        lemma_inserted_keyed_by_id(empty, m + g + c);
    }
    (players, (master.len(), grandmaster.len(), challenger.len()))
}

/// Why a leaderboard could not be fetched.
#[derive(Clone, Copy, Debug, PartialEq, Eq, Structural)]
pub enum FetchError {
    /// A tier did not answer within the time allowed.
    ApiTimeout,
    /// The ranking source answered a tier with an error.
    ApiError,
}

/// What the three fetches of a cycle come to: a timeout if any tier timed
/// out, else an error if any tier failed, else nothing that stands in the way
/// of a snapshot.
pub open spec fn fetch_failure(
    master: Lookup<Vec<LeagueItem>>,
    grandmaster: Lookup<Vec<LeagueItem>>,
    challenger: Lookup<Vec<LeagueItem>>,
) -> Option<FetchError> {
    if master is TimedOut || grandmaster is TimedOut || challenger is TimedOut {
        Some(FetchError::ApiTimeout)
    } else if master is Failed || grandmaster is Failed || challenger is Failed {
        Some(FetchError::ApiError)
    } else {
        None
    }
}

/// Makes the snapshot of a cycle from the outcomes of its three fetches. There
/// is a snapshot only if all three tiers were fetched: a part of a leaderboard
/// is never compared with the previous state.
pub fn snapshot_of_fetches(
    master: &Lookup<Vec<LeagueItem>>,
    grandmaster: &Lookup<Vec<LeagueItem>>,
    challenger: &Lookup<Vec<LeagueItem>>,
) -> (fetched: Result<(PlayerMap<(LeagueItem, RankTier)>, (usize, usize, usize)), FetchError>)
    ensures
        match fetched {
            Ok(merged) => {
                &&& fetch_failure(*master, *grandmaster, *challenger) is None
                &&& merged.0@ == inserted_all(
                    Map::<Seq<char>, (LeagueItem, RankTier)>::empty(),
                    merge_order(master->Found_0@, grandmaster->Found_0@, challenger->Found_0@),
                )
                &&& merged.0.keys() == keys_after(
                    Seq::<Seq<char>>::empty(),
                    merge_order(master->Found_0@, grandmaster->Found_0@, challenger->Found_0@),
                )
                &&& merged.1 == (
                    master->Found_0.len(),
                    grandmaster->Found_0.len(),
                    challenger->Found_0.len(),
                )
                &&& keyed_by_id(merged.0@)
            },
            Err(error) => fetch_failure(*master, *grandmaster, *challenger) == Some(error),
        },
{
    match (master, grandmaster, challenger) {
        (Lookup::Found(m), Lookup::Found(g), Lookup::Found(c)) => Ok(merge_tiers(m, g, c)),
        (Lookup::TimedOut, _, _) => Err(FetchError::ApiTimeout),
        (_, Lookup::TimedOut, _) => Err(FetchError::ApiTimeout),
        (_, _, Lookup::TimedOut) => Err(FetchError::ApiTimeout),
        _ => Err(FetchError::ApiError),
    }
}

/// Indexes the rows of the previous state by player id. Of two rows with one
/// id the later one stays.
pub fn index_players(rows: &Vec<PlayerSnapshotRecord>) -> (players: PlayerMap<PlayerSnapshotRecord>)
    ensures
        players@ == inserted_all(
            Map::<Seq<char>, PlayerSnapshotRecord>::empty(),
            record_pairs(rows@),
        ),
        players.keys() == keys_after(Seq::<Seq<char>>::empty(), record_pairs(rows@)),
        records_keyed_by_id(players@),
{
    let mut players: PlayerMap<PlayerSnapshotRecord> = PlayerMap::new();
    let ghost pairs = record_pairs(rows@);
    let ghost empty = Map::<Seq<char>, PlayerSnapshotRecord>::empty();
    let ghost none = Seq::<Seq<char>>::empty();
    let mut i: usize = 0;
    assert(pairs.take(0) =~= Seq::empty());
    while i < rows.len()
        invariant
            i <= rows.len(),
            pairs == record_pairs(rows@),
            empty == Map::<Seq<char>, PlayerSnapshotRecord>::empty(),
            none == Seq::<Seq<char>>::empty(),
            players@ == inserted_all(empty, pairs.take(i as int)),
            players.keys() == keys_after(none, pairs.take(i as int)),
        decreases rows.len() - i,
    {
        let row = &rows[i];
        let copy = PlayerSnapshotRecord {
            summoner_id: row.summoner_id.clone(),
            region: row.region,
            rank_tier: row.rank_tier,
            current_lp: row.current_lp,
            wins: row.wins,
            losses: row.losses,
            updated_at: row.updated_at,
        };
        proof {
            lemma_insert_next(empty, none, pairs, i as int);
        }
        players.insert(row.summoner_id.clone(), copy);
        i = i + 1;
    }
    assert(pairs.take(rows.len() as int) =~= pairs);
    proof {
        lemma_inserted_records_keyed_by_id(empty, pairs);
    }
    players
}

/// The row that stores one fetched player for `region`.
pub open spec fn player_row_of(entry: (LeagueItem, RankTier), region: Region) -> ApexTierPlayerRowView {
    ApexTierPlayerRowView {
        summoner_id: entry.0.summoner_id@,
        region,
        rank_tier: entry.1,
        wins: entry.0.wins,
        losses: entry.0.losses,
        current_lp: entry.0.league_points,
    }
}

/// Builds the rows that store the fetched snapshot: one for each player, in
/// the order of the snapshot.
pub fn player_rows(players: &PlayerMap<(LeagueItem, RankTier)>, region: Region) -> (rows: Vec<
    ApexTierPlayerRow,
>)
    ensures
        views(rows@) == players.values().map_values(
            |entry: (LeagueItem, RankTier)| player_row_of(entry, region),
        ),
{
    let mut rows: Vec<ApexTierPlayerRow> = Vec::new();
    let n: usize = players.len();
    let mut i: usize = 0;
    while i < n
        invariant
            i <= n,
            n == players.values().len(),
            rows@.len() == i,
            forall|j: int|
                0 <= j < i ==> (#[trigger] rows@[j])@ == player_row_of(players.values()[j], region),
        decreases n - i,
    {
        let entry = players.value_at(i);
        rows.push(
            ApexTierPlayerRow {
                summoner_id: entry.0.summoner_id.clone(),
                region,
                rank_tier: entry.1,
                wins: entry.0.wins,
                losses: entry.0.losses,
                current_lp: entry.0.league_points,
            },
        );
        i = i + 1;
    }
    assert(views(rows@) =~= players.values().map_values(
        |entry: (LeagueItem, RankTier)| player_row_of(entry, region),
    ));
    rows
}

/// Whether a tier holds an entry of player `id`.
pub open spec fn tier_holds(entries: Seq<LeagueItem>, id: Seq<char>) -> bool {
    exists|i: int| 0 <= i < entries.len() && (#[trigger] entries[i]).summoner_id@ == id
}

/// The tie-break of the merge. The merged snapshot holds exactly the players
/// of the three tiers. A player who stands in the Challenger tier is a
/// Challenger in it, whatever the other tiers say; one who stands in the
/// Grandmaster tier and not in the Challenger tier is a Grandmaster; one who
/// stands in the Master tier only is a Master.
pub proof fn lemma_later_tier_wins(
    master: Seq<LeagueItem>,
    grandmaster: Seq<LeagueItem>,
    challenger: Seq<LeagueItem>,
    id: Seq<char>,
)
    ensures
        ({
            let merged = inserted_all(
                Map::<Seq<char>, (LeagueItem, RankTier)>::empty(),
                merge_order(master, grandmaster, challenger),
            );
            &&& merged.contains_key(id) <==> tier_holds(master, id) || tier_holds(grandmaster, id)
                || tier_holds(challenger, id)
            &&& tier_holds(challenger, id) ==> merged[id].1 == RankTier::Challenger
            &&& tier_holds(grandmaster, id) && !tier_holds(challenger, id) ==> merged[id].1
                == RankTier::Grandmaster
            &&& tier_holds(master, id) && !tier_holds(grandmaster, id) && !tier_holds(
                challenger,
                id,
            ) ==> merged[id].1 == RankTier::Master
        }),
{
    let empty = Map::<Seq<char>, (LeagueItem, RankTier)>::empty();
    let m = tier_pairs(master, RankTier::Master);
    let g = tier_pairs(grandmaster, RankTier::Grandmaster);
    let c = tier_pairs(challenger, RankTier::Challenger);
    let pairs = merge_order(master, grandmaster, challenger);
    let merged = inserted_all(empty, pairs);
    assert(pairs.len() == m.len() + g.len() + c.len());
    assert forall|j: int| 0 <= j < pairs.len() implies (#[trigger] pairs[j]) == if j < m.len() {
        m[j]
    } else if j < m.len() + g.len() {
        g[j - m.len()]
    } else {
        c[j - m.len() - g.len()]
    } by {}
    lemma_inserted_keys(empty, pairs, id);
    if tier_holds(master, id) {
        let i = choose|i: int| 0 <= i < master.len() && (#[trigger] master[i]).summoner_id@ == id;
        assert(pairs[i].0 == id);
    }
    if tier_holds(grandmaster, id) {
        let i = choose|i: int|
            0 <= i < grandmaster.len() && (#[trigger] grandmaster[i]).summoner_id@ == id;
        assert(pairs[m.len() + i].0 == id);
    }
    if tier_holds(challenger, id) {
        let i = choose|i: int|
            0 <= i < challenger.len() && (#[trigger] challenger[i]).summoner_id@ == id;
        assert(pairs[m.len() + g.len() + i].0 == id);
    }
    if merged.contains_key(id) {
        let j = choose|j: int| 0 <= j < pairs.len() && (#[trigger] pairs[j]).0 == id;
        if j < m.len() {
            assert(master[j].summoner_id@ == id);
        } else if j < m.len() + g.len() {
            assert(grandmaster[j - m.len()].summoner_id@ == id);
        } else {
            assert(challenger[j - m.len() - g.len()].summoner_id@ == id);
        }
        // the last pair with this id decides
        let last = last_with_key(pairs, id, pairs.len() as int);
        lemma_last_with_key(pairs, id, pairs.len() as int);
        lemma_inserted_last_wins(empty, pairs, last);
        if last < m.len() {
            assert(master[last].summoner_id@ == id);
            assert forall|k: int| 0 <= k < grandmaster.len() implies (
            #[trigger] grandmaster[k]).summoner_id@ != id by {
                assert(pairs[m.len() + k].0 != id);
            }
            assert forall|k: int| 0 <= k < challenger.len() implies (
            #[trigger] challenger[k]).summoner_id@ != id by {
                assert(pairs[m.len() + g.len() + k].0 != id);
            }
        } else if last < m.len() + g.len() {
            assert forall|k: int| 0 <= k < challenger.len() implies (
            #[trigger] challenger[k]).summoner_id@ != id by {
                assert(pairs[m.len() + g.len() + k].0 != id);
            }
        }
    }
}

} // verus!
