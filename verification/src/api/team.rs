//! The HackSquad API's teams (the current form of its answers) and the
//! cached requests that fetch them.

use vstd::prelude::*;

use crate::api::{
    leaderboard_address, leaderboard_cache_key, leaderboard_key, leaderboard_url,
    team_address, team_cache_key, team_key, team_url,
};
use crate::database::CachedRequest;
use crate::environment::Configuration;

verus! {

/// The answer listing the leaderboard.
#[derive(Debug)]
pub struct LeaderboardResponse {
    pub teams: Vec<Team>,
}

/// The answer describing one team.
#[derive(Debug)]
pub struct TeamResponse {
    pub team: Team,
}

/// A team: its score, its pull requests as JSON text, and its members.
#[derive(Clone, Debug)]
pub struct Team {
    pub name: String,
    pub score: u32,
    pub slug: String,
    pub prs: Option<String>,
    pub users: Option<Vec<User>>,
}

/// A team member.
#[derive(Clone, Debug)]
pub struct User {
    pub name: String,
    pub handle: String,
}

/// A pull request of a team; `status` is set when it was deleted.
#[derive(Clone, Debug)]
pub struct PR {
    pub status: Option<String>,
    pub title: String,
    pub url: String,
}

/// The request for the leaderboard, cached for the configured time.
pub fn get_leaderboard(config: &Configuration) -> (r: CachedRequest)
    ensures
        r.url@ == leaderboard_url(),
        r.key@ == leaderboard_key(),
        r.ttl_seconds == config.cache_leaderboard_ttl,
{
    CachedRequest {
        url: leaderboard_address(),
        key: leaderboard_cache_key(),
        ttl_seconds: config.cache_leaderboard_ttl,
    }
}

/// The request for the team `team_id`, cached for the configured time.
pub fn get_team(config: &Configuration, team_id: &str) -> (r: CachedRequest)
    ensures
        r.url@ == team_url(team_id@),
        r.key@ == team_key(team_id@),
        r.ttl_seconds == config.cache_team_ttl,
{
    CachedRequest {
        url: team_address(team_id),
        key: team_cache_key(team_id),
        ttl_seconds: config.cache_team_ttl,
    }
}

} // verus!
