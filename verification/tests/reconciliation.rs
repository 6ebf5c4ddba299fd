use dodgetracker::apex_tier_players::{index_players, merge_tiers, player_rows};
use dodgetracker::dodges::find_dodges;
use dodgetracker::model::{LeagueItem, PlayerSnapshotRecord, RankTier, Region, Timestamp};
use dodgetracker::promotions_demotions::{
    find_demotions, find_promotions, group_demotions, DemotionRecord,
};

fn item(id: &str, league_points: i32, wins: i32, losses: i32) -> LeagueItem {
    LeagueItem {
        summoner_id: id.to_string(),
        league_points,
        wins,
        losses,
    }
}

fn record(id: &str, current_lp: i32, wins: i32, losses: i32, updated_at: i64) -> PlayerSnapshotRecord {
    PlayerSnapshotRecord {
        summoner_id: id.to_string(),
        region: Region::EUW1,
        rank_tier: RankTier::Master,
        current_lp,
        wins,
        losses,
        updated_at: Timestamp { micros: updated_at },
    }
}

/// What storage holds once a cycle that fetched `fetched` has been committed
/// at the time `now` over `rows`.
fn stored_after(
    rows: &[PlayerSnapshotRecord],
    fetched: &dodgetracker::player_map::PlayerMap<(LeagueItem, RankTier)>,
    now: i64,
) -> Vec<PlayerSnapshotRecord> {
    let mut after: Vec<PlayerSnapshotRecord> = rows
        .iter()
        .filter(|row| !fetched.contains_key(&row.summoner_id))
        .cloned()
        .collect();
    for row in player_rows(fetched, Region::EUW1) {
        after.push(PlayerSnapshotRecord {
            summoner_id: row.summoner_id,
            region: row.region,
            rank_tier: row.rank_tier,
            current_lp: row.current_lp,
            wins: row.wins,
            losses: row.losses,
            updated_at: Timestamp { micros: now },
        });
    }
    after
}

#[test]
fn unchanged_snapshot_gives_no_event() {
    let rows: Vec<PlayerSnapshotRecord> = (0..50)
        .map(|n| record(&format!("player-{}", n), 100 + n, 10, 5, 1_000))
        .collect();
    let master: Vec<LeagueItem> = (0..50)
        .map(|n| item(&format!("player-{}", n), 100 + n, 10, 5))
        .collect();
    let db_players = index_players(&rows);
    let (api_players, counts) = merge_tiers(&master, &Vec::new(), &Vec::new());
    let demotions = group_demotions(&Vec::new());

    assert_eq!(counts, (50, 0, 0));
    assert_eq!(db_players.len(), 50);
    assert_eq!(find_dodges(&db_players, &api_players), Vec::new());
    assert_eq!(
        find_promotions(&api_players, &db_players, &demotions, Region::EUW1),
        Vec::new()
    );
    assert_eq!(
        find_demotions(&api_players, &db_players, &demotions, Region::EUW1),
        Vec::new()
    );
}

#[test]
fn unchanged_snapshot_of_a_returned_player_is_a_promotion() {
    let rows = vec![record("a", 100, 10, 5, 1_000)];
    let db_players = index_players(&rows);
    let (api_players, _) = merge_tiers(&vec![item("a", 100, 10, 5)], &Vec::new(), &Vec::new());
    let demotions = group_demotions(&vec![DemotionRecord {
        summoner_id: "a".to_string(),
        created_at: Timestamp { micros: 2_000 },
    }]);
    assert_eq!(
        find_promotions(&api_players, &db_players, &demotions, Region::EUW1).len(),
        1
    );
}

#[test]
fn second_cycle_on_the_same_leaderboard_is_quiet() {
    let rows = vec![
        record("stays", 300, 10, 5, 1_000),
        record("dodges", 200, 20, 10, 1_000),
        record("falls", 5, 30, 29, 1_000),
        record("fell-before", 3, 8, 9, 500),
    ];
    let mut demotion_rows = vec![DemotionRecord {
        summoner_id: "fell-before".to_string(),
        created_at: Timestamp { micros: 900 },
    }];
    let master = vec![
        item("stays", 310, 11, 5),
        item("dodges", 190, 20, 10),
        item("rises", 1, 40, 39),
    ];
    let (api_players, _) = merge_tiers(&master, &Vec::new(), &Vec::new());

    let db_players = index_players(&rows);
    let demotions = group_demotions(&demotion_rows);
    let dodges = find_dodges(&db_players, &api_players);
    let promotions = find_promotions(&api_players, &db_players, &demotions, Region::EUW1);
    let demoted = find_demotions(&api_players, &db_players, &demotions, Region::EUW1);
    assert_eq!(dodges.len(), 1);
    assert_eq!(dodges[0].summoner_id, "dodges");
    assert_eq!(promotions.len(), 1);
    assert_eq!(promotions[0].summoner_id, "rises");
    assert_eq!(demoted.len(), 1);
    assert_eq!(demoted[0].summoner_id, "falls");

    let now = 2_000;
    let rows = stored_after(&rows, &api_players, now);
    for demotion in &demoted {
        demotion_rows.push(DemotionRecord {
            summoner_id: demotion.summoner_id.clone(),
            created_at: Timestamp { micros: now },
        });
    }

    let db_players = index_players(&rows);
    let demotions = group_demotions(&demotion_rows);
    assert_eq!(db_players.len(), 5);
    assert_eq!(find_dodges(&db_players, &api_players), Vec::new());
    assert_eq!(
        find_promotions(&api_players, &db_players, &demotions, Region::EUW1),
        Vec::new()
    );
    assert_eq!(
        find_demotions(&api_players, &db_players, &demotions, Region::EUW1),
        Vec::new()
    );
}

#[test]
fn player_who_comes_back_is_promoted_once() {
    let rows = vec![record("back", 5, 30, 29, 1_000)];
    let demotion_rows = vec![DemotionRecord {
        summoner_id: "back".to_string(),
        created_at: Timestamp { micros: 2_000 },
    }];
    let (api_players, _) = merge_tiers(&vec![item("back", 20, 35, 30)], &Vec::new(), &Vec::new());

    let promotions = find_promotions(
        &api_players,
        &index_players(&rows),
        &group_demotions(&demotion_rows),
        Region::EUW1,
    );
    assert_eq!(promotions.len(), 1);
    assert_eq!((promotions[0].at_wins, promotions[0].at_losses), (35, 30));

    let rows = stored_after(&rows, &api_players, 3_000);
    let promotions = find_promotions(
        &api_players,
        &index_players(&rows),
        &group_demotions(&demotion_rows),
        Region::EUW1,
    );
    assert_eq!(promotions, Vec::new());
}

#[test]
fn each_batch_names_a_player_once() {
    let rows: Vec<PlayerSnapshotRecord> = (0..20)
        .map(|n| record(&format!("player-{}", n), 500, 10, 5, 1_000))
        .collect();
    let master: Vec<LeagueItem> = (10..30)
        .map(|n| item(&format!("player-{}", n), 490, 10, 5))
        .collect();
    let challenger: Vec<LeagueItem> = (10..15)
        .map(|n| item(&format!("player-{}", n), 480, 10, 5))
        .collect();
    let db_players = index_players(&rows);
    let (api_players, counts) = merge_tiers(&master, &Vec::new(), &challenger);
    let demotions = group_demotions(&Vec::new());
    assert_eq!(counts, (20, 0, 5));
    assert_eq!(api_players.len(), 20);

    let mut dodged: Vec<String> = find_dodges(&db_players, &api_players)
        .into_iter()
        .map(|dodge| dodge.summoner_id)
        .collect();
    let mut promoted: Vec<String> = find_promotions(&api_players, &db_players, &demotions, Region::KR)
        .into_iter()
        .map(|promotion| promotion.summoner_id)
        .collect();
    let mut demoted: Vec<String> = find_demotions(&api_players, &db_players, &demotions, Region::KR)
        .into_iter()
        .map(|demotion| demotion.summoner_id)
        .collect();
    assert_eq!((dodged.len(), promoted.len(), demoted.len()), (10, 10, 10));
    dodged.sort();
    dodged.dedup();
    promoted.sort();
    promoted.dedup();
    demoted.sort();
    demoted.dedup();
    assert_eq!((dodged.len(), promoted.len(), demoted.len()), (10, 10, 10));
}
