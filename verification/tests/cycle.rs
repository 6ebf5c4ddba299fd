use dodgetracker::cycle::{
    throttle_delay, throttle_interval, Action, Cycle, Event, Phase, RETRY_WAIT_NANOS,
};
use dodgetracker::model::Region;

fn ok(at: u128) -> Event {
    Event {
        succeeded: true,
        found: 0,
        at,
    }
}

fn found(count: usize, at: u128) -> Event {
    Event {
        succeeded: true,
        found: count,
        at,
    }
}

fn failed(at: u128) -> Event {
    Event {
        succeeded: false,
        found: 0,
        at,
    }
}

fn at_phase(region: Region, phase: Phase) -> Cycle {
    Cycle {
        region,
        phase,
        fetch_started: 1_000,
    }
}

#[test]
fn cycle_starts_with_a_transaction() {
    let (cycle, action) = Cycle::start(Region::EUW1);
    assert_eq!(cycle.phase, Phase::BeginTxn);
    assert_eq!(cycle.region, Region::EUW1);
    assert_eq!(action, Action::BeginTransaction);
}

#[test]
fn unchanged_cycle_commits() {
    let (mut cycle, mut action) = Cycle::start(Region::NA1);
    let mut actions = vec![action];
    for at in 1..=10u128 {
        (cycle, action) = cycle.step(ok(at));
        actions.push(action);
    }
    assert_eq!(
        actions,
        vec![
            Action::BeginTransaction,
            Action::FetchSnapshot,
            Action::LoadPreviousState,
            Action::DetectDodges,
            Action::UpsertCurrentState,
            Action::DetectPromotions,
            Action::PersistPromotions,
            Action::DetectDemotions,
            Action::PersistDemotions,
            Action::SampleCounts,
            Action::Commit,
        ]
    );
    assert_eq!(cycle.phase, Phase::Commit);
    let (cycle, action) = cycle.step(ok(11));
    assert_eq!(action, Action::RecordLastUpdate);
    assert_eq!(cycle.fetch_started, 1);
}

#[test]
fn dodges_are_enriched_and_persisted() {
    let cycle = at_phase(Region::EUW1, Phase::DetectDodges);
    let (cycle, action) = cycle.step(found(2, 2_000));
    assert_eq!(action, Action::EnrichSummoners);
    let (cycle, action) = cycle.step(ok(2_001));
    assert_eq!(action, Action::EnrichRiotIds);
    let (cycle, action) = cycle.step(ok(2_002));
    assert_eq!(action, Action::EnrichLolpros);
    let (cycle, action) = cycle.step(ok(2_003));
    assert_eq!(action, Action::PersistDodges);
    let (cycle, action) = cycle.step(ok(2_004));
    assert_eq!(action, Action::UpsertCurrentState);
    assert_eq!(cycle.phase, Phase::UpsertCurrentState);
}

#[test]
fn profiles_are_looked_up_in_euw1_only() {
    for region in [Region::EUN1, Region::NA1, Region::KR, Region::OC1] {
        let (cycle, action) = at_phase(region, Phase::EnrichRiotIds).step(ok(2_000));
        assert_eq!(action, Action::PersistDodges);
        assert_eq!(cycle.phase, Phase::PersistDodges);
    }
    let (_, action) = at_phase(Region::EUW1, Phase::EnrichRiotIds).step(ok(2_000));
    assert_eq!(action, Action::EnrichLolpros);
}

#[test]
fn failure_gives_the_cycle_up() {
    for phase in [
        Phase::BeginTxn,
        Phase::FetchSnapshot,
        Phase::LoadPreviousState,
        Phase::DetectDodges,
        Phase::EnrichSummoners,
        Phase::EnrichRiotIds,
        Phase::PersistDodges,
        Phase::UpsertCurrentState,
        Phase::DetectPromotions,
        Phase::PersistPromotions,
        Phase::DetectDemotions,
        Phase::PersistDemotions,
        Phase::Commit,
    ] {
        let (cycle, action) = at_phase(Region::KR, phase).step(failed(2_000));
        assert_eq!(
            action,
            Action::Backoff {
                nanos: 5_000_000_000
            }
        );
        assert_eq!(cycle.phase, Phase::Backoff);
        let (cycle, action) = cycle.step(ok(3_000));
        assert_eq!(action, Action::BeginTransaction);
        assert_eq!(cycle.phase, Phase::BeginTxn);
    }
    assert_eq!(RETRY_WAIT_NANOS, 5_000_000_000);
}

#[test]
fn some_failures_are_ignored() {
    let (_, action) = at_phase(Region::EUW1, Phase::EnrichLolpros).step(failed(2_000));
    assert_eq!(action, Action::PersistDodges);
    let (_, action) = at_phase(Region::EUW1, Phase::SampleCounts).step(failed(2_000));
    assert_eq!(action, Action::Commit);
    let (cycle, action) = at_phase(Region::EUW1, Phase::RecordLastUpdate).step(failed(2_000));
    assert_eq!(
        action,
        Action::Throttle {
            nanos: 7_000_000_000 - 1_000
        }
    );
    assert_eq!(cycle.phase, Phase::Throttle);
}

#[test]
fn throttle_sleeps_the_rest_of_the_interval() {
    let cycle = Cycle {
        region: Region::OC1,
        phase: Phase::RecordLastUpdate,
        fetch_started: 10_000_000_000,
    };
    let (next, action) = cycle.step(ok(12_500_000_000));
    assert_eq!(
        action,
        Action::Throttle {
            nanos: 4_500_000_000
        }
    );
    let (next, action) = next.step(ok(17_000_000_000));
    assert_eq!(action, Action::BeginTransaction);
    assert_eq!(next.phase, Phase::BeginTxn);

    let (next, action) = cycle.step(ok(17_000_000_000));
    assert_eq!(action, Action::Throttle { nanos: 0 });
    assert_eq!(next.phase, Phase::Throttle);

    let (next, action) = cycle.step(ok(17_000_000_001));
    assert_eq!(action, Action::BeginTransaction);
    assert_eq!(next.phase, Phase::BeginTxn);
}

#[test]
fn clock_that_ran_backwards_counts_as_no_time() {
    let cycle = Cycle {
        region: Region::KR,
        phase: Phase::RecordLastUpdate,
        fetch_started: 10_000_000_000,
    };
    let (_, action) = cycle.step(ok(9_000_000_000));
    assert_eq!(
        action,
        Action::Throttle {
            nanos: 7_000_000_000
        }
    );
}

#[test]
fn fetch_start_is_taken_when_the_transaction_is_open() {
    let (cycle, _) = Cycle::start(Region::KR);
    let (cycle, _) = cycle.step(ok(42));
    assert_eq!(cycle.fetch_started, 42);
    let (cycle, _) = cycle.step(ok(50));
    assert_eq!(cycle.fetch_started, 42);
    let (cycle, _) = cycle.step(failed(60));
    let (cycle, _) = cycle.step(ok(70));
    let (cycle, _) = cycle.step(failed(80));
    assert_eq!(cycle.fetch_started, 42);
    assert_eq!(cycle.phase, Phase::Backoff);
}

#[test]
fn throttle_delay_is_what_is_left() {
    assert_eq!(throttle_delay(7_000_000_000, 0), Some(7_000_000_000));
    assert_eq!(throttle_delay(7_000_000_000, 6_999_999_999), Some(1));
    assert_eq!(throttle_delay(7_000_000_000, 7_000_000_000), Some(0));
    assert_eq!(throttle_delay(7_000_000_000, 7_000_000_001), None);
    assert_eq!(throttle_delay(u64::MAX, u128::MAX), None);
    assert_eq!(throttle_delay(0, 0), Some(0));
}

#[test]
fn every_region_is_throttled_to_seven_seconds() {
    for region in [
        Region::EUW1,
        Region::EUN1,
        Region::NA1,
        Region::KR,
        Region::OC1,
    ] {
        assert_eq!(throttle_interval(region), 7_000_000_000);
    }
}
