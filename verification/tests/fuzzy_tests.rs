use hacksquad::api::hero::Hero;
use hacksquad::api::team::Team;
use hacksquad::fuzzy::{hero_candidates, search_hero, search_teams, suggestions_from_matches, team_candidates};
use simsearch::SearchOptions;

fn team(name: &str, slug: &str) -> Team {
    Team { name: name.to_string(), score: 0, slug: slug.to_string(), prs: None, users: None }
}

fn hero(github: &str) -> Hero {
    Hero {
        name: None, avatar_url: String::new(), bio: None, location: None, github: github.to_string(),
        devto: None, linkedin: None, twitter: None, discord: None, activities_count: None,
        activities_score: None, total_pulls: None, last_activity_occurred_at: None, pulls: vec![],
    }
}

fn options() -> SearchOptions {
    SearchOptions::new().case_sensitive(false).threshold(0.82)
}

fn pairs(s: Vec<hacksquad::fuzzy::Suggestion>) -> Vec<(String, String)> {
    s.into_iter().map(|x| (x.name, x.value)).collect()
}

#[test]
fn matches_become_suggestions() {
    let c = team_candidates(&vec![team("Red Team", "red"), team("Blue Team", "blue")]);
    let s = suggestions_from_matches(&c, "blu", vec!["blue".to_string(), "gone".to_string()]);
    assert_eq!(pairs(s), vec![("Blue Team".to_string(), "blue".to_string())]);
}

#[test]
fn no_match_falls_back_to_prefix() {
    let c = team_candidates(&vec![team("Red", "rabbit"), team("Blue", "blue"), team("Rust", "rust")]);
    let s = suggestions_from_matches(&c, "r", vec![]);
    assert_eq!(
        pairs(s),
        vec![("Red".to_string(), "rabbit".to_string()), ("Rust".to_string(), "rust".to_string())]
    );
    let s = suggestions_from_matches(&c, "", vec![]);
    assert_eq!(s.len(), 3);
}

#[test]
fn at_most_ten() {
    let teams: Vec<Team> = (0..15).map(|i| team(&format!("N{}", i), &format!("x{}", i))).collect();
    let c = team_candidates(&teams);
    let s = suggestions_from_matches(&c, "x", vec![]);
    assert_eq!(s.len(), 10);
    assert_eq!(s[9].value, "x9");
}

#[test]
fn engine_search_finds_team() {
    let teams = vec![team("Hacking Heroes", "heroes"), team("Code Wizards", "wizards")];
    let s = search_teams(options(), &teams, "wizards");
    assert_eq!(pairs(s), vec![("Code Wizards".to_string(), "wizards".to_string())]);
}

#[test]
fn engine_search_finds_hero() {
    let heroes = vec![hero("octocat"), hero("torvalds")];
    let s = search_hero(options(), &heroes, "torvald");
    assert_eq!(pairs(s), vec![("torvalds".to_string(), "torvalds".to_string())]);
    let c = hero_candidates(&heroes);
    assert_eq!(c[0].id, "octocat");
    assert_eq!(c[0].label, "octocat");
}

#[test]
fn engine_search_without_match_uses_prefix() {
    let teams = vec![team("Alpha", "a1"), team("Beta", "b1")];
    let s = search_teams(options(), &teams, "a");
    assert_eq!(pairs(s), vec![("Alpha".to_string(), "a1".to_string())]);
}

#[test]
fn empty_query_suggests_every_team_up_to_ten() {
    let teams: Vec<Team> = (0..12).map(|i| team(&format!("Name{}", i), &format!("slug{}", i))).collect();
    let s = search_teams(options(), &teams, "");
    assert_eq!(s.len(), 10);
    assert_eq!(s[0].value, "slug0");
    assert_eq!(s[0].name, "Name0");
    assert_eq!(s[9].value, "slug9");
}

#[test]
fn built_engine_searches_every_candidate() {
    let c = team_candidates(&vec![team("First Squad", "first"), team("Second Squad", "second"), team("Third Squad", "third")]);
    let engine = hacksquad::fuzzy::build_engine(options(), &c);
    assert_eq!(engine.search("third"), vec!["third".to_string()]);
    assert_eq!(engine.search("first"), vec!["first".to_string()]);
}
