pub mod round_stats;
pub mod match_stats;
pub mod leaderboard;
