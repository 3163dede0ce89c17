//! Report-aggregation layer for a command-line statistics client.
//!
//! The library turns raw per-record query responses (platforms, playlists,
//! seasons, players, leaderboard entries) into cross-referenced, ordered
//! tabular report rows.  Fetching records from the remote service and
//! printing the finished tables are left to the surrounding program.

pub mod aggregate;
pub mod dates;
pub mod leaderboard;
pub mod lookup;
pub mod playlist_report;
pub mod records;
pub mod report;
pub mod rows;
pub mod sorting;
pub mod tables;
pub mod text;
