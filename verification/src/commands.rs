//! What each slash command shows.

pub mod hero;
pub mod info;
pub mod leaderboard;
pub mod team;
pub mod teams;
