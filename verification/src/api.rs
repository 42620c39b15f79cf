//! The HackSquad API's teams (the first form of its answers) and the keys and
//! addresses under which they are fetched and cached.

pub mod hero;
pub mod team;

use vstd::prelude::*;
use vstd::string::StringExecFns;

verus! {

/// The answer listing all teams.
#[derive(Debug)]
pub struct TeamsResponse {
    pub teams: Vec<Team>,
}

/// The answer describing one team with its members.
#[derive(Debug)]
pub struct TeamResponse {
    pub team: TeamWithUser,
}

/// A team on the leaderboard.
#[derive(Clone, Debug)]
pub struct Team {
    pub name: String,
    pub score: u32,
    pub slug: String,
    /// The team's pull requests, as JSON text.
    pub prs: Option<String>,
}

/// A team with its members.
#[derive(Clone, Debug)]
pub struct TeamWithUser {
    pub name: String,
    pub score: u32,
    pub slug: String,
    pub prs: Option<String>,
    pub users: Vec<User>,
}

/// A pull request of a team; `status` is set when it was deleted.
#[derive(Clone, Debug)]
pub struct PR {
    pub status: Option<String>,
    pub title: String,
    pub url: String,
}

/// A team member.
#[derive(Clone, Debug)]
pub struct User {
    pub name: String,
    pub handle: String,
}

/// The cache key of the leaderboard.
pub open spec fn leaderboard_key() -> Seq<char> {
    "leaderboard"@
}

/// The address of the leaderboard.
pub open spec fn leaderboard_url() -> Seq<char> {
    "https://www.hacksquad.dev/api/leaderboard"@
}

/// The cache key of a team.
pub open spec fn team_key(team_id: Seq<char>) -> Seq<char> {
    "team:"@ + team_id
}

/// The address of a team.
pub open spec fn team_url(team_id: Seq<char>) -> Seq<char> {
    "https://www.hacksquad.dev/api/team?id="@ + team_id
}

/// The cache key under which the leaderboard is kept.
pub fn leaderboard_cache_key() -> (s: String)
    ensures
        s@ == leaderboard_key(),
{
    String::from_str("leaderboard")
}

/// The address from which the leaderboard is fetched.
pub fn leaderboard_address() -> (s: String)
    ensures
        s@ == leaderboard_url(),
{
    String::from_str("https://www.hacksquad.dev/api/leaderboard")
}

/// The cache key under which the team `team_id` is kept.
pub fn team_cache_key(team_id: &str) -> (s: String)
    ensures
        s@ == team_key(team_id@),
{
    let mut s = String::from_str("team:");
    s.append(team_id);
    s
}

/// The address from which the team `team_id` is fetched.
pub fn team_address(team_id: &str) -> (s: String)
    ensures
        s@ == team_url(team_id@),
{
    let mut s = String::from_str("https://www.hacksquad.dev/api/team?id=");
    s.append(team_id);
    s
}

} // verus!
