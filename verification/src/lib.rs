//! Reconciliation of apex-tier leaderboard snapshots.
//!
//! A region's leaderboard is fetched again and again. Each fresh snapshot is
//! compared with the state persisted by the previous cycle, and the comparison
//! yields dodge, promotion and demotion events. This crate holds the rules of
//! that comparison, the bookkeeping around it and the state machine of one
//! region's cycle; reading the leaderboard and writing to storage are left to
//! the caller.
//!
//! - `model`, `player_map`, `config`: the data, the snapshot map and the knobs.
//! - `sequences`: what filtering and mapping keep of a sequence.
//! - `apex_tier_players`: the two snapshots of a cycle.
//! - `dodges`, `promotions_demotions`: event detection.
//! - `summoners`, `riot_ids`, `lolpros`: enrichment of the players who dodged.
//! - `player_counts`: the hourly count sample.
//! - `cycle`: the state machine of a region's cycle.
//! - `reconciliation`: what is proved of a whole cycle.
pub mod model;
pub mod sequences;
pub mod player_map;
pub mod config;
pub mod apex_tier_players;
pub mod dodges;
pub mod promotions_demotions;
pub mod summoners;
pub mod riot_ids;
pub mod lolpros;
pub mod player_counts;
pub mod cycle;
pub mod reconciliation;
