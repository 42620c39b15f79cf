use hacksquad::api::hero::{get_hero, get_heroes};
use hacksquad::api::team::{get_leaderboard, get_team};
use hacksquad::api::{team_address, team_cache_key};
use hacksquad::environment::{
    default_hero_ttl, default_heros_ttl, default_leaderboards_ttl, default_team_ttl, Configuration,
};

#[test]
fn default_lifetimes() {
    assert_eq!(default_leaderboards_ttl(), 1800);
    assert_eq!(default_team_ttl(), 600);
    assert_eq!(default_heros_ttl(), 43200);
    assert_eq!(default_hero_ttl(), 43200);
    let c = Configuration::default();
    assert_eq!(c.discord_token, "");
    assert_eq!(c.redis_uri, "");
    assert_eq!(c.cache_leaderboard_ttl, 1800);
    assert_eq!(c.cache_team_ttl, 600);
    assert_eq!(c.cache_heros_ttl, 43200);
    assert_eq!(c.cache_hero_ttl, 43200);
}

#[test]
fn cached_requests() {
    let mut c = Configuration::default();
    c.cache_team_ttl = 5;
    let r = get_leaderboard(&c);
    assert_eq!(r.url, "https://www.hacksquad.dev/api/leaderboard");
    assert_eq!(r.key, "leaderboard");
    assert_eq!(r.ttl_seconds, 1800);
    let r = get_team(&c, "abc");
    assert_eq!(r.url, "https://www.hacksquad.dev/api/team?id=abc");
    assert_eq!(r.key, "team:abc");
    assert_eq!(r.ttl_seconds, 5);
    let r = get_heroes(&c);
    assert_eq!(r.url, "https://contributors.novu.co/contributors");
    assert_eq!(r.key, "heros");
    assert_eq!(r.ttl_seconds, 43200);
    let r = get_hero(&c, "octo");
    assert_eq!(r.url, "https://contributors.novu.co/contributor/octo");
    assert_eq!(r.key, "hero:octo");
    assert_eq!(team_cache_key("x"), "team:x");
    assert_eq!(team_address("x"), "https://www.hacksquad.dev/api/team?id=x");
}
