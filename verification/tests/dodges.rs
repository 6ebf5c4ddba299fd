use dodgetracker::dodges::{check_dodge, find_dodges, DodgeEvent, DECAY_LP_LOSS};
use dodgetracker::model::{LeagueItem, PlayerSnapshotRecord, RankTier, Region, Timestamp};
use dodgetracker::player_map::PlayerMap;

fn db_player(id: &str, current_lp: i32, wins: i32, losses: i32) -> PlayerSnapshotRecord {
    PlayerSnapshotRecord {
        summoner_id: id.to_string(),
        region: Region::EUW1,
        current_lp,
        wins,
        losses,
        rank_tier: RankTier::Challenger,
        updated_at: Timestamp { micros: 1_720_000_000_000_000 },
    }
}

fn api_player(id: &str, league_points: i32, wins: i32, losses: i32) -> (LeagueItem, RankTier) {
    (
        LeagueItem {
            summoner_id: id.to_string(),
            league_points,
            wins,
            losses,
        },
        RankTier::Challenger,
    )
}

#[test]
fn can_find_dodge() {
    let mut db_players = PlayerMap::new();
    let mut api_players = PlayerMap::new();

    let summoner_id_a = "summoner1".to_string();

    db_players.insert(summoner_id_a.clone(), db_player("summoner1", 100, 10, 5));
    api_players.insert(summoner_id_a.clone(), api_player("summoner1", 95, 10, 5));

    let dodges = find_dodges(&db_players, &api_players);
    assert_eq!(dodges.len(), 1);
    let dodge = &dodges[0];
    assert_eq!(&dodge.summoner_id, &summoner_id_a);
}

#[test]
fn higher_lp() {
    let mut db_players = PlayerMap::new();
    let mut api_players = PlayerMap::new();

    let summoner_id_a = "summoner1".to_string();

    db_players.insert(summoner_id_a.clone(), db_player("summoner1", 100, 10, 5));
    api_players.insert(summoner_id_a.clone(), api_player("summoner1", 105, 10, 5));

    let dodges = find_dodges(&db_players, &api_players);
    assert_eq!(dodges.len(), 0);
}

#[test]
fn handles_different_games_played() {
    let mut db_players = PlayerMap::new();
    let mut api_players = PlayerMap::new();

    let summoner_id_a = "summoner1".to_string();

    db_players.insert(summoner_id_a.clone(), db_player("summoner1", 100, 10, 5));
    api_players.insert(summoner_id_a.clone(), api_player("summoner1", 95, 11, 5));

    let dodges = find_dodges(&db_players, &api_players);
    assert_eq!(dodges.len(), 0);
}

#[test]
fn dodge_event_keeps_the_previous_state() {
    let mut db_players = PlayerMap::new();
    let mut api_players = PlayerMap::new();
    db_players.insert("summoner1".to_string(), db_player("summoner1", 100, 10, 5));
    api_players.insert("summoner1".to_string(), api_player("summoner1", 95, 10, 5));

    let dodges = find_dodges(&db_players, &api_players);
    assert_eq!(
        dodges,
        vec![DodgeEvent {
            summoner_id: "summoner1".to_string(),
            region: Region::EUW1,
            lp_before: 100,
            lp_after: 95,
            rank_tier: RankTier::Challenger,
            at_wins: 10,
            at_losses: 5,
        }]
    );
}

#[test]
fn loss_of_exactly_the_decay_is_no_dodge() {
    let mut db_players = PlayerMap::new();
    let mut api_players = PlayerMap::new();
    db_players.insert("summoner1".to_string(), db_player("summoner1", 200, 10, 5));
    api_players.insert("summoner1".to_string(), api_player("summoner1", 125, 10, 5));

    assert_eq!(DECAY_LP_LOSS, 75);
    assert_eq!(find_dodges(&db_players, &api_players).len(), 0);
}

#[test]
fn loss_next_to_the_decay_is_a_dodge() {
    let old = db_player("summoner1", 200, 10, 5);
    assert!(check_dodge(&old, &api_player("summoner1", 126, 10, 5).0));
    assert!(check_dodge(&old, &api_player("summoner1", 124, 10, 5).0));
    assert!(check_dodge(&old, &api_player("summoner1", 50, 10, 5).0));
    assert!(!check_dodge(&old, &api_player("summoner1", 125, 10, 5).0));
}

#[test]
fn equal_lp_is_no_dodge() {
    let old = db_player("summoner1", 100, 10, 5);
    assert!(!check_dodge(&old, &api_player("summoner1", 100, 10, 5).0));
}

#[test]
fn same_games_with_other_wins_and_losses_is_a_dodge() {
    let old = db_player("summoner1", 100, 10, 5);
    assert!(check_dodge(&old, &api_player("summoner1", 95, 9, 6).0));
}

#[test]
fn games_are_counted_without_overflow() {
    let old = db_player("summoner1", 100, i32::MAX, 1);
    assert!(check_dodge(&old, &api_player("summoner1", 95, 1, i32::MAX).0));
    assert!(!check_dodge(&old, &api_player("summoner1", 95, i32::MIN, 1).0));
    let low = db_player("summoner1", i32::MAX, 0, 0);
    assert!(check_dodge(&low, &api_player("summoner1", i32::MIN, 0, 0).0));
}

#[test]
fn new_player_is_no_dodge() {
    let mut db_players = PlayerMap::new();
    let mut api_players = PlayerMap::new();
    db_players.insert("summoner1".to_string(), db_player("summoner1", 100, 10, 5));
    api_players.insert("summoner2".to_string(), api_player("summoner2", 95, 10, 5));
    assert_eq!(find_dodges(&db_players, &api_players).len(), 0);
}

#[test]
fn dodges_come_in_the_order_of_the_snapshot() {
    let mut db_players = PlayerMap::new();
    let mut api_players = PlayerMap::new();
    for (id, lp) in [("a", 100), ("b", 200), ("c", 300), ("d", 400)] {
        db_players.insert(id.to_string(), db_player(id, lp, 10, 5));
    }
    api_players.insert("d".to_string(), api_player("d", 390, 10, 5));
    api_players.insert("b".to_string(), api_player("b", 200, 10, 5));
    api_players.insert("a".to_string(), api_player("a", 85, 10, 5));
    api_players.insert("c".to_string(), api_player("c", 225, 10, 5));

    let dodges = find_dodges(&db_players, &api_players);
    let ids: Vec<&str> = dodges.iter().map(|d| d.summoner_id.as_str()).collect();
    assert_eq!(ids, vec!["d", "a"]);
    assert_eq!((dodges[0].lp_before, dodges[0].lp_after), (400, 390));
    assert_eq!((dodges[1].lp_before, dodges[1].lp_after), (100, 85));
}

#[test]
fn detection_twice_finds_the_same_dodges() {
    let mut db_players = PlayerMap::new();
    let mut api_players = PlayerMap::new();
    db_players.insert("a".to_string(), db_player("a", 100, 10, 5));
    db_players.insert("b".to_string(), db_player("b", 100, 10, 5));
    api_players.insert("a".to_string(), api_player("a", 95, 10, 5));
    api_players.insert("b".to_string(), api_player("b", 90, 10, 5));
    let first = find_dodges(&db_players, &api_players);
    let second = find_dodges(&db_players, &api_players);
    assert_eq!(first.len(), 2);
    assert_eq!(first, second);
}
