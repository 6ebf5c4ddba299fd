use dodgetracker::config::{
    chunk_bounds, supported_regions, ENRICHMENT_TIMEOUT_SECS, INSERT_CHUNK_SIZE,
    LEADERBOARD_TIMEOUT_SECS, SUMMONER_TIMEOUT_SECS,
};
use dodgetracker::model::{RankTier, Region, Timestamp};
use dodgetracker::player_counts::{
    player_count_samples, should_sample, PlayerCountSample, SAMPLE_INTERVAL_MICROS,
};

const HOUR: i64 = 3_600_000_000;

fn at(micros: i64) -> Timestamp {
    Timestamp { micros }
}

#[test]
fn first_sample_is_due() {
    assert!(should_sample(None, at(0)));
    assert!(should_sample(None, at(i64::MIN)));
}

#[test]
fn sample_is_due_from_one_hour_on() {
    let last = at(1_720_000_000_000_000);
    assert_eq!(SAMPLE_INTERVAL_MICROS, HOUR);
    assert!(!should_sample(Some(last), at(last.micros)));
    assert!(!should_sample(Some(last), at(last.micros + HOUR - 1)));
    assert!(should_sample(Some(last), at(last.micros + HOUR)));
    assert!(should_sample(Some(last), at(last.micros + HOUR + 1)));
    assert!(should_sample(Some(last), at(last.micros + 24 * HOUR)));
}

#[test]
fn sample_from_the_future_is_not_due() {
    assert!(!should_sample(Some(at(10 * HOUR)), at(0)));
}

#[test]
fn sample_times_far_apart_do_not_overflow() {
    assert!(should_sample(Some(at(i64::MIN)), at(i64::MAX)));
    assert!(!should_sample(Some(at(i64::MAX)), at(i64::MIN)));
}

#[test]
fn due_sample_counts_each_tier() {
    assert_eq!(
        player_count_samples(4000, 700, 300, Region::KR, Some(at(0)), at(HOUR)),
        vec![
            PlayerCountSample {
                region: Region::KR,
                rank_tier: RankTier::Master,
                player_count: 4000,
            },
            PlayerCountSample {
                region: Region::KR,
                rank_tier: RankTier::Grandmaster,
                player_count: 700,
            },
            PlayerCountSample {
                region: Region::KR,
                rank_tier: RankTier::Challenger,
                player_count: 300,
            },
        ]
    );
    assert_eq!(
        player_count_samples(1, 2, 3, Region::EUW1, None, at(5)).len(),
        3
    );
}

#[test]
fn early_sample_is_left_out() {
    assert_eq!(
        player_count_samples(4000, 700, 300, Region::KR, Some(at(0)), at(HOUR - 1)),
        Vec::new()
    );
}

#[test]
fn chunks_cover_the_rows_in_order() {
    assert_eq!(chunk_bounds(0, 3), Vec::new());
    assert_eq!(chunk_bounds(1, 3), vec![(0, 1)]);
    assert_eq!(chunk_bounds(3, 3), vec![(0, 3)]);
    assert_eq!(chunk_bounds(4, 3), vec![(0, 3), (3, 4)]);
    assert_eq!(chunk_bounds(9, 3), vec![(0, 3), (3, 6), (6, 9)]);
    assert_eq!(chunk_bounds(10, 3), vec![(0, 3), (3, 6), (6, 9), (9, 10)]);
    assert_eq!(chunk_bounds(2, 1), vec![(0, 1), (1, 2)]);
    assert_eq!(chunk_bounds(5, usize::MAX), vec![(0, 5)]);
    assert_eq!(
        chunk_bounds(usize::MAX, usize::MAX - 1),
        vec![(0, usize::MAX - 1), (usize::MAX - 1, usize::MAX)]
    );
}

#[test]
fn chunks_are_as_the_slices_of_std() {
    let rows: Vec<u32> = (0..2503).collect();
    let bounds = chunk_bounds(rows.len(), INSERT_CHUNK_SIZE);
    let chunks: Vec<&[u32]> = rows.chunks(INSERT_CHUNK_SIZE).collect();
    assert_eq!(bounds.len(), chunks.len());
    for (bound, chunk) in bounds.iter().zip(chunks) {
        assert_eq!(&rows[bound.0..bound.1], chunk);
    }
}

#[test]
fn five_regions_are_tracked() {
    assert_eq!(
        supported_regions(),
        vec![
            Region::EUW1,
            Region::EUN1,
            Region::NA1,
            Region::KR,
            Region::OC1
        ]
    );
}

#[test]
fn time_budgets() {
    assert_eq!(LEADERBOARD_TIMEOUT_SECS, 10);
    assert_eq!(SUMMONER_TIMEOUT_SECS, 10);
    assert_eq!(ENRICHMENT_TIMEOUT_SECS, 5);
}
