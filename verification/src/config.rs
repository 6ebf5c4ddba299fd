//! The knobs of the reconciliation and the batching that they govern.
use vstd::prelude::*;
use crate::model::Region;

verus! {

/// The most rows that one storage statement carries.
pub const INSERT_CHUNK_SIZE: usize = 1000;

/// The time allowed to the fetch of one tier, in seconds.
pub const LEADERBOARD_TIMEOUT_SECS: u64 = 10;

/// The time allowed to the lookup of one summoner, in seconds.
pub const SUMMONER_TIMEOUT_SECS: u64 = 10;

/// The time allowed to the lookup of one account or of one profile, in seconds.
pub const ENRICHMENT_TIMEOUT_SECS: u64 = 5;

/// The regions that are tracked, in the order in which their cycles are started.
pub fn supported_regions() -> (regions: Vec<Region>)
    ensures
        regions@ == seq![Region::EUW1, Region::EUN1, Region::NA1, Region::KR, Region::OC1],
{
    let mut regions: Vec<Region> = Vec::new();
    regions.push(Region::EUW1);
    regions.push(Region::EUN1);
    regions.push(Region::NA1);
    regions.push(Region::KR);
    regions.push(Region::OC1);
    assert(regions@ =~= seq![Region::EUW1, Region::EUN1, Region::NA1, Region::KR, Region::OC1]);
    regions
}

/// Whether `bounds` cuts the positions `0..len` into chunks of `chunk_size`:
/// the chunks follow one another without a gap from 0 to `len`, each but the
/// last holds `chunk_size` positions, and the last holds at least one and at
/// most `chunk_size`. No position gives no chunk.
pub open spec fn is_chunking(bounds: Seq<(usize, usize)>, len: int, chunk_size: int) -> bool {
    &&& bounds.len() == 0 <==> len == 0
    &&& bounds.len() > 0 ==> bounds[0].0 == 0 && bounds.last().1 == len
    &&& forall|k: int|
        0 <= k < bounds.len() ==> 0 < (#[trigger] bounds[k]).1 - bounds[k].0 <= chunk_size
    &&& forall|k: int|
        0 <= k < bounds.len() - 1 ==> (#[trigger] bounds[k]).1 - bounds[k].0 == chunk_size
            && bounds[k + 1].0 == bounds[k].1
}

/// Cuts `len` rows into the chunks in which they are written: each pair holds
/// the position of a chunk's first row and the position after its last.
pub fn chunk_bounds(len: usize, chunk_size: usize) -> (bounds: Vec<(usize, usize)>)
    requires
        chunk_size > 0,
    ensures
        is_chunking(bounds@, len as int, chunk_size as int),
{
    let mut bounds: Vec<(usize, usize)> = Vec::new();
    let mut start: usize = 0;
    while start < len
        invariant
            chunk_size > 0,
            start <= len,
            bounds@.len() == 0 <==> start == 0,
            bounds@.len() > 0 ==> bounds@[0].0 == 0 && bounds@.last().1 == start,
            forall|k: int|
                0 <= k < bounds@.len() ==> (#[trigger] bounds@[k]).1 - bounds@[k].0 == chunk_size,
            forall|k: int|
                0 <= k < bounds@.len() - 1 ==> (#[trigger] bounds@[k]).1 == bounds@[k + 1].0,
        decreases len - start,
    {
        let end: usize = if len - start > chunk_size {
            start + chunk_size
        } else {
            len
        };
        bounds.push((start, end));
        if end == len {
            return bounds;
        }
        start = end;
    }
    bounds
}

} // verus!
