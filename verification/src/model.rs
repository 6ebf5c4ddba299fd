//! The plain data that the reconciliation rules read and produce.
use vstd::prelude::*;

verus! {

/// A ladder shard that is tracked.
#[derive(Clone, Copy, Debug, PartialEq, Eq, Structural, Hash)]
pub enum Region {
    EUW1,
    EUN1,
    NA1,
    KR,
    OC1,
}

/// The name under which a region is stored and queried.
pub open spec fn region_name(region: Region) -> Seq<char> {
    match region {
        Region::EUW1 => "EUW1"@,
        Region::EUN1 => "EUN1"@,
        Region::NA1 => "NA1"@,
        Region::KR => "KR"@,
        Region::OC1 => "OC1"@,
    }
}

/// The region that a name names, if it names one.
pub open spec fn region_of_name(name: Seq<char>) -> Option<Region> {
    if name == "EUW1"@ {
        Some(Region::EUW1)
    } else if name == "EUN1"@ {
        Some(Region::EUN1)
    } else if name == "NA1"@ {
        Some(Region::NA1)
    } else if name == "KR"@ {
        Some(Region::KR)
    } else if name == "OC1"@ {
        Some(Region::OC1)
    } else {
        None
    }
}

impl Region {
    /// The name of the region.
    pub fn name(&self) -> (name: &'static str)
        ensures
            name@ == region_name(*self),
    {
        match self {
            Region::EUW1 => "EUW1",
            Region::EUN1 => "EUN1",
            Region::NA1 => "NA1",
            Region::KR => "KR",
            Region::OC1 => "OC1",
        }
    }

    /// Reads the name of a region: `None` for a name that no tracked region has.
    pub fn from_name(name: &str) -> (region: Option<Region>)
        ensures
            region == region_of_name(name@),
    {
        if same_text(name, "EUW1") {
            Some(Region::EUW1)
        } else if same_text(name, "EUN1") {
            Some(Region::EUN1)
        } else if same_text(name, "NA1") {
            Some(Region::NA1)
        } else if same_text(name, "KR") {
            Some(Region::KR)
        } else if same_text(name, "OC1") {
            Some(Region::OC1)
        } else {
            None
        }
    }
}

/// The names of the regions differ: reading the name of a region gives the
/// region back.
pub proof fn lemma_region_name_round_trip(region: Region)
    ensures
        region_of_name(region_name(region)) == Some(region),
{
    reveal_strlit("EUW1");
    reveal_strlit("EUN1");
    reveal_strlit("NA1");
    reveal_strlit("KR");
    reveal_strlit("OC1");
    assert("EUW1"@.len() == 4 && "EUN1"@.len() == 4);
    assert("NA1"@.len() == 3 && "OC1"@.len() == 3);
    assert("KR"@.len() == 2);
    assert("EUW1"@[2] == 'W' && "EUN1"@[2] == 'N');
    assert("NA1"@[0] == 'N' && "OC1"@[0] == 'O');
}

/// One of the three apex tiers.
#[derive(Clone, Copy, Debug, PartialEq, Eq, Structural, Hash)]
pub enum RankTier {
    Master,
    Grandmaster,
    Challenger,
}

/// A point in time, counted in microseconds since the Unix epoch.
#[derive(Clone, Copy, Debug, PartialEq, Eq, Structural, Hash)]
pub struct Timestamp {
    pub micros: i64,
}

impl Timestamp {
    /// Whether `self` lies strictly after `other`.
    pub fn is_after(&self, other: &Timestamp) -> (after: bool)
        ensures
            after == (self.micros > other.micros),
    {
        self.micros > other.micros
    }
}

/// The persisted state of one player of a region's apex tiers.
#[derive(Clone, Debug, PartialEq, Eq)]
pub struct PlayerSnapshotRecord {
    pub summoner_id: String,
    pub region: Region,
    pub rank_tier: RankTier,
    pub current_lp: i32,
    pub wins: i32,
    pub losses: i32,
    pub updated_at: Timestamp,
}

/// One player's standing as the ranking source reports it.
#[derive(Clone, Debug, PartialEq, Eq)]
pub struct LeagueItem {
    pub summoner_id: String,
    pub league_points: i32,
    pub wins: i32,
    pub losses: i32,
}

/// How one time-bounded lookup at an outside service ended.
#[derive(Clone, Debug, PartialEq, Eq)]
pub enum Lookup<T> {
    /// The service answered with a value.
    Found(T),
    /// The service answered with an error.
    Failed,
    /// No answer came within the time allowed.
    TimedOut,
}

/// Whether two strings hold the same text.
pub fn same_text(a: &str, b: &str) -> (same: bool)
    ensures
        same == (a@ == b@),
{
    a.to_owned() == b.to_owned()
}

} // verus!
