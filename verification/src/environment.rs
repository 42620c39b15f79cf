//! The bot's configuration: credentials and how long cached API answers live.

use vstd::prelude::*;

verus! {

/// The bot's settings, read from the environment.
#[derive(Clone, Debug)]
pub struct Configuration {
    pub discord_token: String,
    pub redis_uri: String,
    /// Seconds a cached leaderboard stays valid.
    pub cache_leaderboard_ttl: usize,
    /// Seconds a cached team stays valid.
    pub cache_team_ttl: usize,
    /// Seconds a cached hero list stays valid.
    pub cache_heros_ttl: usize,
    /// Seconds a cached hero stays valid.
    pub cache_hero_ttl: usize,
}

/// Thirty minutes.
pub fn default_leaderboards_ttl() -> (s: usize)
    ensures
        s == 60 * 30,
{
    60 * 30
}

/// Ten minutes.
pub fn default_team_ttl() -> (s: usize)
    ensures
        s == 60 * 10,
{
    60 * 10
}

/// Twelve hours.
pub fn default_heros_ttl() -> (s: usize)
    ensures
        s == 60 * 60 * 12,
{
    60 * 60 * 12
}

/// Twelve hours.
pub fn default_hero_ttl() -> (s: usize)
    ensures
        s == 60 * 60 * 12,
{
    60 * 60 * 12
}

impl Default for Configuration {
    /// Empty credentials and the default lifetimes.
    fn default() -> (c: Configuration)
        ensures
            c.discord_token@ == Seq::<char>::empty(),
            c.redis_uri@ == Seq::<char>::empty(),
            c.cache_leaderboard_ttl == 1800,
            c.cache_team_ttl == 600,
            c.cache_heros_ttl == 43200,
            c.cache_hero_ttl == 43200,
    {
        Configuration {
            discord_token: String::new(),
            redis_uri: String::new(),
            cache_leaderboard_ttl: default_leaderboards_ttl(),
            cache_team_ttl: default_team_ttl(),
            cache_heros_ttl: default_heros_ttl(),
            cache_hero_ttl: default_hero_ttl(),
        }
    }
}

} // verus!
