//! Novu community heroes (contributors), the cached requests that fetch them,
//! and the pick of a random one.

use rand::seq::SliceRandom;

use vstd::prelude::*;
use vstd::string::StringExecFns;

use crate::database::CachedRequest;
use crate::environment::Configuration;

verus! {

/// A contributor's profile.
#[derive(Clone, Debug)]
pub struct Hero {
    pub name: Option<String>,
    pub avatar_url: String,
    pub bio: Option<String>,
    pub location: Option<String>,
    pub github: String,
    pub devto: Option<String>,
    pub linkedin: Option<String>,
    pub twitter: Option<String>,
    pub discord: Option<String>,
    pub activities_count: Option<u32>,
    pub activities_score: Option<u32>,
    pub total_pulls: Option<u32>,
    pub last_activity_occurred_at: Option<String>,
    pub pulls: Vec<Pulls>,
}

/// A pull request of a contributor.
#[derive(Clone, Debug)]
pub struct Pulls {
    pub url: String,
    pub title: String,
}

/// The answer listing all contributors.
pub struct HeroResponse {
    pub list: Vec<Hero>,
}

/// The address of the contributor list.
pub open spec fn heroes_url() -> Seq<char> {
    "https://contributors.novu.co/contributors"@
}

/// The cache key of the contributor list.
pub open spec fn heroes_key() -> Seq<char> {
    "heros"@
}

/// The address of one contributor.
pub open spec fn hero_url(github_id: Seq<char>) -> Seq<char> {
    "https://contributors.novu.co/contributor/"@ + github_id
}

/// The cache key of one contributor.
pub open spec fn hero_key(github_id: Seq<char>) -> Seq<char> {
    "hero:"@ + github_id
}

/// The request for the contributor list, cached for the configured time.
pub fn get_heroes(config: &Configuration) -> (r: CachedRequest)
    ensures
        r.url@ == heroes_url(),
        r.key@ == heroes_key(),
        r.ttl_seconds == config.cache_heros_ttl,
{
    CachedRequest {
        url: String::from_str("https://contributors.novu.co/contributors"),
        key: String::from_str("heros"),
        ttl_seconds: config.cache_heros_ttl,
    }
}

/// The request for the contributor `github_id`, cached for the configured time.
pub fn get_hero(config: &Configuration, github_id: &str) -> (r: CachedRequest)
    ensures
        r.url@ == hero_url(github_id@),
        r.key@ == hero_key(github_id@),
        r.ttl_seconds == config.cache_hero_ttl,
{
    let mut url = String::from_str("https://contributors.novu.co/contributor/");
    url.append(github_id);
    let mut key = String::from_str("hero:");
    key.append(github_id);
    CachedRequest { url, key, ttl_seconds: config.cache_hero_ttl }
}

/// `rand::seq::SliceRandom::choose` with the thread-local generator: one
/// element of `positions`, drawn at random, or None when it is empty. What
/// is claimed is only that: the element is one of `positions`; which one is
/// left to chance.
#[verifier::external_body]
fn choose_position(positions: &Vec<usize>) -> (r: Option<usize>)
    ensures
        r is None <==> positions@.len() == 0,
        r matches Some(i) ==> positions@.contains(i),
{
    positions.choose(&mut rand::thread_rng()).copied()
}

/// The positions `0, 1, ..., n - 1`, in order.
pub fn all_positions(n: usize) -> (v: Vec<usize>)
    ensures
        v@ == Seq::new(n as nat, |i: int| i as usize),
{
    let mut v: Vec<usize> = Vec::new();
    for i in 0..n
        invariant
            v@ == Seq::new(i as nat, |j: int| j as usize),
    {
        v.push(i);
        assert(v@ =~= Seq::new((i + 1) as nat, |j: int| j as usize));
    }
    v
}

/// Whether `r` is an outcome that the random draw `choose_position` gave
/// when it was handed `positions`.
pub closed spec fn drawn(positions: Vec<usize>, r: Option<usize>) -> bool {
    call_ensures(choose_position, (&positions,), r)
}

/// A draw over the positions `0, 1, ..., n - 1` gives one of them, and gives
/// one whenever there is one.
pub proof fn lemma_draw_gives_a_position(positions: Vec<usize>, n: nat, r: Option<usize>)
    requires
        positions@ == Seq::new(n, |j: int| j as usize),
        drawn(positions, r),
    ensures
        r is Some <==> n > 0,
        r matches Some(i) ==> i < n,
{
    if let Some(i) = r {
        let k = choose|k: int| 0 <= k < positions@.len() && positions@[k] == i;
        assert(positions@.len() == positions.len());
        assert(positions@[k] == k);
    }
}

/// One contributor of `heroes`, drawn at random from all of their positions:
/// the one at the position that the random draw over `0, 1, ..., n - 1` gave.
pub fn get_random_hero(heroes: Vec<Hero>) -> (h: Hero)
    requires
        heroes@.len() > 0,
    ensures
        heroes@.contains(h),
        exists|positions: Vec<usize>, i: usize|
            #![trigger drawn(positions, Some(i))]
            positions@ == Seq::new(heroes@.len(), |j: int| j as usize) && drawn(positions, Some(i))
                && i < heroes@.len() && h == heroes@[i as int],
{
    let positions = all_positions(heroes.len());
    let mut heroes = heroes;
    let ghost all = heroes@;
    let draw = choose_position;
    let r = draw(&positions);
    assert(drawn(positions, r));
    proof {
        lemma_draw_gives_a_position(positions, all.len(), r);
    }
    match r {
        Some(i) => {
            let h = heroes.swap_remove(i);
            assert(all[i as int] == h);
            assert(positions@ == Seq::new(all.len(), |j: int| j as usize) && drawn(positions, Some(i))
                && i < all.len() && h == all[i as int]);
            h
        },
        None => {
            assert(false);
            heroes.swap_remove(0)
        },
    }
}

} // verus!
