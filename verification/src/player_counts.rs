//! The hourly sample of how many players each apex tier of a region holds.
use vstd::prelude::*;
use crate::model::{RankTier, Region, Timestamp};

verus! {

/// The least time between two samples of a region, in microseconds: one hour.
pub const SAMPLE_INTERVAL_MICROS: i64 = 3_600_000_000;

/// The number of players that one tier of a region holds.
#[derive(Clone, Copy, Debug, PartialEq, Eq, Structural)]
pub struct PlayerCountSample {
    pub region: Region,
    pub rank_tier: RankTier,
    pub player_count: usize,
}

/// Whether a sample is due at `now`: there is no sample yet, or the last one
/// is an hour old or older.
pub open spec fn sample_due(last_sample: Option<Timestamp>, now: Timestamp) -> bool {
    match last_sample {
        None => true,
        Some(last) => now.micros - last.micros >= SAMPLE_INTERVAL_MICROS,
    }
}

/// Decides whether the counts of a region are sampled in this cycle.
pub fn should_sample(last_sample: Option<Timestamp>, now: Timestamp) -> (due: bool)
    ensures
        due == sample_due(last_sample, now),
{
    match last_sample {
        None => true,
        Some(last) => {
            let time_diff: i128 = now.micros as i128 - last.micros as i128;
            time_diff >= SAMPLE_INTERVAL_MICROS as i128
        },
    }
}

/// The three samples of a region: Master, Grandmaster, Challenger.
pub open spec fn samples_of(
    master_count: usize,
    grandmaster_count: usize,
    challenger_count: usize,
    region: Region,
) -> Seq<PlayerCountSample> {
    seq![
        PlayerCountSample { region, rank_tier: RankTier::Master, player_count: master_count },
        PlayerCountSample {
            region,
            rank_tier: RankTier::Grandmaster,
            player_count: grandmaster_count,
        },
        PlayerCountSample { region, rank_tier: RankTier::Challenger, player_count: challenger_count },
    ]
}

/// Builds the samples of a cycle: none when no sample is due, else one for
/// each tier with the count of the fetched tier.
pub fn player_count_samples(
    master_count: usize,
    grandmaster_count: usize,
    challenger_count: usize,
    region: Region,
    last_sample: Option<Timestamp>,
    now: Timestamp,
) -> (samples: Vec<PlayerCountSample>)
    ensures
        samples@ == if sample_due(last_sample, now) {
            samples_of(master_count, grandmaster_count, challenger_count, region)
        } else {
            Seq::empty()
        },
{
    let mut samples: Vec<PlayerCountSample> = Vec::new();
    if should_sample(last_sample, now) {
        samples.push(
            PlayerCountSample { region, rank_tier: RankTier::Master, player_count: master_count },
        );
        samples.push(
            PlayerCountSample {
                region,
                rank_tier: RankTier::Grandmaster,
                player_count: grandmaster_count,
            },
        );
        samples.push(
            PlayerCountSample {
                region,
                rank_tier: RankTier::Challenger,
                player_count: challenger_count,
            },
        );
        assert(samples@ =~= samples_of(master_count, grandmaster_count, challenger_count, region));
    }
    samples
}

/// Count sampling. A sample is due when there is none yet. It is not due
/// while the last one is less than an hour old, and it is due from exactly one
/// hour on.
pub proof fn lemma_sampling_cadence(last: Timestamp, now: Timestamp)
    ensures
        sample_due(None, now),
        now.micros - last.micros < 3_600_000_000 ==> !sample_due(Some(last), now),
        now.micros - last.micros == 3_600_000_000 ==> sample_due(Some(last), now),
        now.micros - last.micros > 3_600_000_000 ==> sample_due(Some(last), now),
{
}

} // verus!
