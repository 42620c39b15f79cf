//! Small helpers shared by the commands.

pub mod calculate_latency;
pub mod embeds;
pub mod git;
