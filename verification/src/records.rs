//! The record shapes the remote statistics service supplies, held as plain
//! values.  Every entity is an immutable snapshot created for one command
//! invocation and discarded after rendering.

use vstd::prelude::*;

verus! {

/// A distribution channel under which playlist population is broken down.
/// Unique by `id`.
#[derive(Debug, Clone)]
pub struct Platform {
    pub id: u64,
    pub name: String,
}

/// One playlist population record.  One record exists per (playlist,
/// platform) pair, so the same playlist `id` can repeat once per platform.
#[derive(Debug, Clone)]
pub struct Playlist {
    pub id: u64,
    pub name: String,
    pub platform_id: u64,
    pub population: u32,
}

/// A time-bounded competitive period.  An absent `ended_on` means the season
/// is current.
#[derive(Debug, Clone)]
pub struct Season {
    pub season_id: u64,
    pub started_on: i64,
    pub ended_on: Option<i64>,
}

/// A competitive rank subdivision.
#[derive(Debug, Clone)]
pub struct Tier {
    pub id: u64,
    pub name: String,
}

/// A player's cumulative statistics.
#[derive(Debug, Clone, Copy)]
pub struct PlayerStats {
    pub wins: u64,
    pub goals: u64,
    pub mvps: u64,
    pub saves: u64,
    pub shots: u64,
    pub assists: u64,
}

/// A player's progress in one playlist of one ranked season.  Absent fields
/// are display-substituted by 0, never an error.
#[derive(Debug, Clone, Copy)]
pub struct RankInfo {
    pub rank_points: Option<u64>,
    pub matches_played: Option<u64>,
    pub tier: Option<u64>,
    pub division: Option<u64>,
}

/// One season of a player's ranked history: the season label and, in source
/// order, one entry per playlist (playlist id with the progress record).
#[derive(Debug, Clone)]
pub struct SeasonRanks {
    pub label: String,
    pub entries: Vec<(u64, RankInfo)>,
}

/// A player snapshot: identity, timestamps (seconds since the Unix epoch),
/// cumulative statistics and ranked-season history.
#[derive(Debug, Clone)]
pub struct Player {
    pub display_name: String,
    pub unique_id: String,
    pub platform: Platform,
    pub profile_url: String,
    pub last_requested: i64,
    pub created_at: i64,
    pub updated_at: i64,
    pub next_update_at: i64,
    pub stats: PlayerStats,
    pub ranked_seasons: Vec<SeasonRanks>,
}

} // verus!
