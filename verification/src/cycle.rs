//! The state machine of one region's reconciliation cycle.
//!
//! The caller performs each action (a storage call, a fetch, a detection step,
//! a sleep) and reports how it ended; `Cycle::step` decides what comes next.
//! Times are readings of the caller's monotonic clock, in nanoseconds.
use vstd::prelude::*;
use crate::model::Region;

verus! {

/// How long a region waits after a failed cycle before it starts over, in nanoseconds.
pub const RETRY_WAIT_NANOS: u64 = 5_000_000_000;

/// The least time between the starts of two fetches of a region, in nanoseconds.
pub open spec fn throttle_of(region: Region) -> u64 {
    7_000_000_000
}

/// Looks up the throttle interval of `region`.
pub fn throttle_interval(region: Region) -> (nanos: u64)
    ensures
        nanos == throttle_of(region),
{
    match region {
        Region::EUW1 => 7_000_000_000,
        Region::EUN1 => 7_000_000_000,
        Region::NA1 => 7_000_000_000,
        Region::KR => 7_000_000_000,
        Region::OC1 => 7_000_000_000,
    }
}

/// The time that is left of `interval` once `elapsed` has passed, if any is.
pub open spec fn remaining(interval: u64, elapsed: u128) -> Option<u64> {
    if elapsed <= interval {
        Some((interval - elapsed) as u64)
    } else {
        None
    }
}

/// Computes how long to sleep so that `interval` has passed in all: `None`
/// when more than `interval` has passed already.
pub fn throttle_delay(interval: u64, elapsed: u128) -> (delay: Option<u64>)
    ensures
        delay == remaining(interval, elapsed),
{
    if elapsed <= interval as u128 {
        let spent: u64 = elapsed as u64;
        Some(interval - spent)
    } else {
        None
    }
}

/// The steps of a cycle, in the order in which a cycle without failures and
/// with dodges to report in the region EUW1 takes them.
#[derive(Clone, Copy, Debug, PartialEq, Eq, Structural)]
pub enum Phase {
    /// Open the transaction that holds all writes of the cycle.
    BeginTxn,
    /// Fetch the three tiers; the fetch fails if any of them does.
    FetchSnapshot,
    /// Load the state that the last committed cycle left.
    LoadPreviousState,
    /// Compare the two snapshots for dodges.
    DetectDodges,
    /// Look up and store the summoners of the dodges. A lookup that fails
    /// only leaves its player out; the step fails if storage does.
    EnrichSummoners,
    /// Look up and store the accounts of those summoners, with the same
    /// meaning of failure.
    EnrichRiotIds,
    /// Look up and store the profiles of those accounts.
    EnrichLolpros,
    /// Append the dodges.
    PersistDodges,
    /// Write the fetched snapshot over the previous state.
    UpsertCurrentState,
    /// Load the demotion history and find the promotions.
    DetectPromotions,
    /// Append the promotions.
    PersistPromotions,
    /// Load the demotion history and find the demotions.
    DetectDemotions,
    /// Append the demotions.
    PersistDemotions,
    /// Append the count sample if one is due.
    SampleCounts,
    /// Commit the transaction.
    Commit,
    /// Mark the time of the region's last successful update.
    RecordLastUpdate,
    /// Sleep what is left of the region's interval.
    Throttle,
    /// Sleep the retry wait after a cycle was given up.
    Backoff,
}

/// What the caller is to do next.
#[derive(Clone, Copy, Debug, PartialEq, Eq, Structural)]
pub enum Action {
    BeginTransaction,
    FetchSnapshot,
    LoadPreviousState,
    DetectDodges,
    EnrichSummoners,
    EnrichRiotIds,
    EnrichLolpros,
    PersistDodges,
    UpsertCurrentState,
    DetectPromotions,
    PersistPromotions,
    DetectDemotions,
    PersistDemotions,
    SampleCounts,
    Commit,
    RecordLastUpdate,
    /// Sleep before the next cycle; the transaction has been committed.
    Throttle { nanos: u64 },
    /// Give the transaction up without committing it, and sleep.
    Backoff { nanos: u64 },
}

/// How the action that was asked for ended.
#[derive(Clone, Copy, Debug, PartialEq, Eq, Structural)]
pub struct Event {
    /// Whether the action ended without an error.
    pub succeeded: bool,
    /// How many events a detection step found; read after `DetectDodges` only.
    pub found: usize,
    /// The clock reading at which the action ended.
    pub at: u128,
}

/// Where a region stands in its cycle.
#[derive(Clone, Copy, Debug, PartialEq, Eq, Structural)]
pub struct Cycle {
    pub region: Region,
    /// The step whose outcome is awaited.
    pub phase: Phase,
    /// The clock reading at which the transaction of this cycle was open and
    /// the fetch began.
    pub fetch_started: u128,
}

/// Whether a failure in `phase` makes the whole cycle start over. Profile
/// enrichment, count sampling and the last-update marker may fail without
/// harm to the cycle; a sleep has nothing to fail.
pub open spec fn aborts_cycle(phase: Phase) -> bool {
    !(phase is EnrichLolpros || phase is SampleCounts || phase is RecordLastUpdate
        || phase is Throttle || phase is Backoff)
}

/// The step that follows `phase` when the cycle goes on. Enrichment and the
/// persisting of dodges are left out when no dodge was found, profile
/// enrichment is for EUW1 only.
pub open spec fn successor(phase: Phase, region: Region, found: usize) -> Phase {
    match phase {
        Phase::BeginTxn => Phase::FetchSnapshot,
        Phase::FetchSnapshot => Phase::LoadPreviousState,
        Phase::LoadPreviousState => Phase::DetectDodges,
        Phase::DetectDodges => if found > 0 {
            Phase::EnrichSummoners
        } else {
            Phase::UpsertCurrentState
        },
        Phase::EnrichSummoners => Phase::EnrichRiotIds,
        Phase::EnrichRiotIds => if region == Region::EUW1 {
            Phase::EnrichLolpros
        } else {
            Phase::PersistDodges
        },
        Phase::EnrichLolpros => Phase::PersistDodges,
        Phase::PersistDodges => Phase::UpsertCurrentState,
        Phase::UpsertCurrentState => Phase::DetectPromotions,
        Phase::DetectPromotions => Phase::PersistPromotions,
        Phase::PersistPromotions => Phase::DetectDemotions,
        Phase::DetectDemotions => Phase::PersistDemotions,
        Phase::PersistDemotions => Phase::SampleCounts,
        Phase::SampleCounts => Phase::Commit,
        Phase::Commit => Phase::RecordLastUpdate,
        Phase::RecordLastUpdate => Phase::Throttle,
        Phase::Throttle => Phase::BeginTxn,
        Phase::Backoff => Phase::BeginTxn,
    }
}

/// The time that has passed between `since` and `at` on a clock that does not
/// run backwards.
pub open spec fn elapsed_between(since: u128, at: u128) -> u128 {
    if at >= since {
        (at - since) as u128
    } else {
        0
    }
}

/// The action that carries out `phase`. The two sleeps take their length from
/// `nanos`.
pub open spec fn action_of(phase: Phase, nanos: u64) -> Action {
    match phase {
        Phase::BeginTxn => Action::BeginTransaction,
        Phase::FetchSnapshot => Action::FetchSnapshot,
        Phase::LoadPreviousState => Action::LoadPreviousState,
        Phase::DetectDodges => Action::DetectDodges,
        Phase::EnrichSummoners => Action::EnrichSummoners,
        Phase::EnrichRiotIds => Action::EnrichRiotIds,
        Phase::EnrichLolpros => Action::EnrichLolpros,
        Phase::PersistDodges => Action::PersistDodges,
        Phase::UpsertCurrentState => Action::UpsertCurrentState,
        Phase::DetectPromotions => Action::DetectPromotions,
        Phase::PersistPromotions => Action::PersistPromotions,
        Phase::DetectDemotions => Action::DetectDemotions,
        Phase::PersistDemotions => Action::PersistDemotions,
        Phase::SampleCounts => Action::SampleCounts,
        Phase::Commit => Action::Commit,
        Phase::RecordLastUpdate => Action::RecordLastUpdate,
        Phase::Throttle => Action::Throttle { nanos },
        Phase::Backoff => Action::Backoff { nanos },
    }
}

/// The step that follows `cycle.phase` after `event`, and the length of the
/// sleep if that step is one.
pub open spec fn next_phase(cycle: Cycle, event: Event) -> (Phase, u64) {
    if !event.succeeded && aborts_cycle(cycle.phase) {
        (Phase::Backoff, RETRY_WAIT_NANOS)
    } else if cycle.phase is RecordLastUpdate {
        match remaining(throttle_of(cycle.region), elapsed_between(cycle.fetch_started, event.at)) {
            Some(nanos) => (Phase::Throttle, nanos),
            None => (Phase::BeginTxn, 0),
        }
    } else {
        (successor(cycle.phase, cycle.region, event.found), 0)
    }
}

/// The state after `event`, and the action that the caller is to perform next.
pub open spec fn transition(cycle: Cycle, event: Event) -> (Cycle, Action) {
    let (phase, nanos) = next_phase(cycle, event);
    let fetch_started = if cycle.phase is BeginTxn && event.succeeded {
        event.at
    } else {
        cycle.fetch_started
    };
    (Cycle { region: cycle.region, phase, fetch_started }, action_of(phase, nanos))
}

/// The state before a region's first cycle.
pub open spec fn initial(region: Region) -> Cycle {
    Cycle { region, phase: Phase::BeginTxn, fetch_started: 0 }
}

/// The state after the events `events`, taken in their order.
pub open spec fn run(cycle: Cycle, events: Seq<Event>) -> Cycle
    decreases events.len(),
{
    if events.len() == 0 {
        cycle
    } else {
        transition(run(cycle, events.drop_last()), events.last()).0
    }
}

/// One more event takes a run one transition further.
pub proof fn lemma_run_step(cycle: Cycle, events: Seq<Event>, k: int)
    requires
        0 <= k < events.len(),
    ensures
        run(cycle, events.take(k + 1)) == transition(run(cycle, events.take(k)), events[k]).0,
{
    assert(events.take(k + 1).drop_last() =~= events.take(k));
}

/// A failure never leads to a partial commit. When a step fails whose failure
/// counts, the transaction is given up and the region sleeps the retry wait;
/// whatever is reported next, the cycle then starts over with a new
/// transaction.
pub proof fn lemma_failure_restarts(cycle: Cycle, failure: Event, wake: Event)
    requires
        !failure.succeeded,
        aborts_cycle(cycle.phase),
    ensures
        transition(cycle, failure).0.phase == Phase::Backoff,
        transition(cycle, failure).1 == (Action::Backoff { nanos: 5_000_000_000 }),
        transition(transition(cycle, failure).0, wake).0.phase == Phase::BeginTxn,
        transition(transition(cycle, failure).0, wake).1 == Action::BeginTransaction,
{
}

/// The place of a step in the cycle.
pub open spec fn rank(phase: Phase) -> nat {
    match phase {
        Phase::BeginTxn => 0,
        Phase::FetchSnapshot => 1,
        Phase::LoadPreviousState => 2,
        Phase::DetectDodges => 3,
        Phase::EnrichSummoners => 4,
        Phase::EnrichRiotIds => 5,
        Phase::EnrichLolpros => 6,
        Phase::PersistDodges => 7,
        Phase::UpsertCurrentState => 8,
        Phase::DetectPromotions => 9,
        Phase::PersistPromotions => 10,
        Phase::DetectDemotions => 11,
        Phase::PersistDemotions => 12,
        Phase::SampleCounts => 13,
        Phase::Commit => 14,
        Phase::RecordLastUpdate => 15,
        Phase::Throttle => 16,
        Phase::Backoff => 17,
    }
}

/// A cycle only moves forward, and only past steps that went well. After any
/// event the region starts over, or backs off, or stands at a later step of
/// the same cycle. After a step whose failure counts it stands at anything
/// but the back-off only if that step succeeded. It stands at the commit only
/// after the count sample, at the persisting of dodges only after the
/// enrichment, at the summoner lookups only after a detection that found
/// dodges, and at the profile lookups only in EUW1.
pub proof fn lemma_progress_needs_success(cycle: Cycle, event: Event)
    ensures
        ({
            let next = transition(cycle, event).0.phase;
            &&& next is BeginTxn || next is Backoff || rank(next) > rank(cycle.phase)
            &&& aborts_cycle(cycle.phase) && !(next is Backoff) ==> event.succeeded
            &&& next is Commit ==> cycle.phase is SampleCounts
            &&& next is PersistDodges ==> rank(cycle.phase) >= rank(Phase::EnrichRiotIds)
            &&& next is EnrichSummoners ==> cycle.phase is DetectDodges && event.found > 0
            &&& next is EnrichLolpros ==> cycle.region == Region::EUW1
        }),
{
}

/// The failures of profile enrichment, of count sampling and of the
/// last-update marker do not hold a cycle up: what follows is what follows
/// their success.
pub proof fn lemma_ignored_failures(cycle: Cycle, event: Event)
    requires
        cycle.phase is EnrichLolpros || cycle.phase is SampleCounts
            || cycle.phase is RecordLastUpdate,
    ensures
        transition(cycle, event) == transition(cycle, Event { succeeded: true, ..event }),
{
}

/// The throttle. After the last step of a cycle the region sleeps what is
/// left of its interval, counted from the start of the fetch, and sleeps not
/// at all if the interval has passed: two fetches of a region start at least
/// one interval apart.
pub proof fn lemma_throttle(cycle: Cycle, event: Event)
    requires
        cycle.phase is RecordLastUpdate,
        event.at >= cycle.fetch_started,
    ensures
        ({
            let elapsed = event.at - cycle.fetch_started;
            let (next, action) = transition(cycle, event);
            &&& elapsed <= throttle_of(cycle.region) ==> next.phase is Throttle && action == (
            Action::Throttle { nanos: (throttle_of(cycle.region) - elapsed) as u64 })
            &&& elapsed > throttle_of(cycle.region) ==> next.phase is BeginTxn && action
                == Action::BeginTransaction
        }),
{
}

/// A cycle without dodges and without failures reaches the commit: after its
/// ten steps, from the opening of the transaction to the count sample, the
/// step that is awaited is the commit. That nothing was found is no error.
pub proof fn lemma_quiet_cycle_commits(region: Region, events: Seq<Event>)
    requires
        events.len() == 10,
        forall|k: int| 0 <= k < 10 ==> (#[trigger] events[k]).succeeded,
        events[3].found == 0,
    ensures
        run(initial(region), events.take(1)).phase == Phase::FetchSnapshot,
        run(initial(region), events.take(2)).phase == Phase::LoadPreviousState,
        run(initial(region), events.take(3)).phase == Phase::DetectDodges,
        run(initial(region), events.take(4)).phase == Phase::UpsertCurrentState,
        run(initial(region), events.take(5)).phase == Phase::DetectPromotions,
        run(initial(region), events.take(6)).phase == Phase::PersistPromotions,
        run(initial(region), events.take(7)).phase == Phase::DetectDemotions,
        run(initial(region), events.take(8)).phase == Phase::PersistDemotions,
        run(initial(region), events.take(9)).phase == Phase::SampleCounts,
        run(initial(region), events).phase == Phase::Commit,
{
    let start = initial(region);
    assert(events.take(0) =~= Seq::empty());
    assert(run(start, events.take(0)) == start);
    lemma_run_step(start, events, 0);
    lemma_run_step(start, events, 1);
    lemma_run_step(start, events, 2);
    lemma_run_step(start, events, 3);
    lemma_run_step(start, events, 4);
    lemma_run_step(start, events, 5);
    lemma_run_step(start, events, 6);
    lemma_run_step(start, events, 7);
    lemma_run_step(start, events, 8);
    lemma_run_step(start, events, 9);
    assert(run(start, events.take(1)).phase == Phase::FetchSnapshot);
    assert(run(start, events.take(2)).phase == Phase::LoadPreviousState);
    assert(run(start, events.take(3)).phase == Phase::DetectDodges);
    assert(run(start, events.take(4)).phase == Phase::UpsertCurrentState);
    assert(run(start, events.take(5)).phase == Phase::DetectPromotions);
    assert(run(start, events.take(6)).phase == Phase::PersistPromotions);
    assert(run(start, events.take(7)).phase == Phase::DetectDemotions);
    assert(run(start, events.take(8)).phase == Phase::PersistDemotions);
    assert(run(start, events.take(9)).phase == Phase::SampleCounts);
    assert(events.take(10) =~= events);
}

impl Cycle {
    /// The state of a region before its first cycle, and the first action.
    pub fn start(region: Region) -> (begin: (Cycle, Action))
        ensures
            begin.0 == initial(region),
            begin.1 == Action::BeginTransaction,
    {
        (Cycle { region, phase: Phase::BeginTxn, fetch_started: 0 }, Action::BeginTransaction)
    }

    /// Gives up the cycle: the transaction is not committed, and the region
    /// starts over after the retry wait.
    fn back_off(self) -> (next: (Cycle, Action))
        ensures
            next.0 == (Cycle { phase: Phase::Backoff, ..self }),
            next.1 == (Action::Backoff { nanos: RETRY_WAIT_NANOS }),
    {
        (
            Cycle { region: self.region, phase: Phase::Backoff, fetch_started: self.fetch_started },
            Action::Backoff { nanos: RETRY_WAIT_NANOS },
        )
    }

    /// Goes on to `phase`, which is no sleep.
    fn advance(self, phase: Phase, action: Action) -> (next: (Cycle, Action))
        ensures
            next.0 == (Cycle { phase, ..self }),
            next.1 == action,
    {
        (Cycle { region: self.region, phase, fetch_started: self.fetch_started }, action)
    }

    /// Decides what follows the awaited step once `event` reports how it ended.
    pub fn step(self, event: Event) -> (next: (Cycle, Action))
        ensures
            next == transition(self, event),
    {
        let ok = event.succeeded;
        match self.phase {
            Phase::BeginTxn => {
                if !ok {
                    return self.back_off();
                }
                (
                    Cycle {
                        region: self.region,
                        phase: Phase::FetchSnapshot,
                        fetch_started: event.at,
                    },
                    Action::FetchSnapshot,
                )
            },
            Phase::FetchSnapshot => {
                if !ok {
                    return self.back_off();
                }
                self.advance(Phase::LoadPreviousState, Action::LoadPreviousState)
            },
            Phase::LoadPreviousState => {
                if !ok {
                    return self.back_off();
                }
                self.advance(Phase::DetectDodges, Action::DetectDodges)
            },
            Phase::DetectDodges => {
                if !ok {
                    return self.back_off();
                }
                if event.found == 0 {
                    self.advance(Phase::UpsertCurrentState, Action::UpsertCurrentState)
                } else {
                    self.advance(Phase::EnrichSummoners, Action::EnrichSummoners)
                }
            },
            Phase::EnrichSummoners => {
                if !ok {
                    return self.back_off();
                }
                self.advance(Phase::EnrichRiotIds, Action::EnrichRiotIds)
            },
            Phase::EnrichRiotIds => {
                if !ok {
                    return self.back_off();
                }
                match self.region {
                    Region::EUW1 => self.advance(Phase::EnrichLolpros, Action::EnrichLolpros),
                    _ => self.advance(Phase::PersistDodges, Action::PersistDodges),
                }
            },
            // a failed profile enrichment is ignored
            Phase::EnrichLolpros => self.advance(Phase::PersistDodges, Action::PersistDodges),
            Phase::PersistDodges => {
                if !ok {
                    return self.back_off();
                }
                self.advance(Phase::UpsertCurrentState, Action::UpsertCurrentState)
            },
            Phase::UpsertCurrentState => {
                if !ok {
                    return self.back_off();
                }
                self.advance(Phase::DetectPromotions, Action::DetectPromotions)
            },
            Phase::DetectPromotions => {
                if !ok {
                    return self.back_off();
                }
                self.advance(Phase::PersistPromotions, Action::PersistPromotions)
            },
            Phase::PersistPromotions => {
                if !ok {
                    return self.back_off();
                }
                self.advance(Phase::DetectDemotions, Action::DetectDemotions)
            },
            Phase::DetectDemotions => {
                if !ok {
                    return self.back_off();
                }
                self.advance(Phase::PersistDemotions, Action::PersistDemotions)
            },
            Phase::PersistDemotions => {
                if !ok {
                    return self.back_off();
                }
                self.advance(Phase::SampleCounts, Action::SampleCounts)
            },
            // a failed count sample is ignored
            Phase::SampleCounts => self.advance(Phase::Commit, Action::Commit),
            Phase::Commit => {
                if !ok {
                    return self.back_off();
                }
                self.advance(Phase::RecordLastUpdate, Action::RecordLastUpdate)
            },
            // a failed last-update marker is ignored
            Phase::RecordLastUpdate => {
                let elapsed: u128 = if event.at >= self.fetch_started {
                    event.at - self.fetch_started
                } else {
                    0
                };
                match throttle_delay(throttle_interval(self.region), elapsed) {
                    Some(nanos) => (
                        Cycle {
                            region: self.region,
                            phase: Phase::Throttle,
                            fetch_started: self.fetch_started,
                        },
                        Action::Throttle { nanos },
                    ),
                    None => self.advance(Phase::BeginTxn, Action::BeginTransaction),
                }
            },
            Phase::Throttle => self.advance(Phase::BeginTxn, Action::BeginTransaction),
            Phase::Backoff => self.advance(Phase::BeginTxn, Action::BeginTransaction),
        }
    }
}

} // verus!
