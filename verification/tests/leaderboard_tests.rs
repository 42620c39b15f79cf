use hacksquad::api::team::Team;
use hacksquad::commands::leaderboard::{leaderboard_pages, ownership_notice};
use hacksquad::embed::{COLOUR_BLITZ_BLUE, COLOUR_RED};

fn team(name: &str, slug: &str, score: u32) -> Team {
    Team { name: name.to_string(), score, slug: slug.to_string(), prs: None, users: None }
}

#[test]
fn one_team_page() {
    let pages = leaderboard_pages(&vec![team("Alpha", "alpha", 42)]);
    assert_eq!(pages.len(), 1);
    let p = &pages[0];
    assert_eq!(p.title.as_deref(), Some("HackSquad Leaderboard"));
    assert_eq!(p.url.as_deref(), Some("https://hacksquad.dev/leaderboard"));
    assert_eq!(p.color, Some(COLOUR_BLITZ_BLUE));
    assert_eq!(
        p.thumbnail.as_deref(),
        Some("https://cdn.discordapp.com/emojis/1026095278941552690.webp?size=128&quality=lossless")
    );
    assert_eq!(
        p.description.as_deref(),
        Some("**[Alpha](https://hacksquad.dev/team/alpha)**\n<:reply_multi:1029067132572549142>`🥇`Rank: `1`\n<:reply:1029065416905076808>Points: `42`\n")
    );
}

#[test]
fn eight_teams_to_a_page() {
    let teams: Vec<Team> = (0..17).map(|i| team(&format!("T{}", i), &format!("s{}", i), i)).collect();
    let pages = leaderboard_pages(&teams);
    assert_eq!(pages.len(), 3);
    let last = pages[2].description.clone().unwrap();
    assert_eq!(
        last,
        "**[T16](https://hacksquad.dev/team/s16)**\n<:reply_multi:1029067132572549142>`🥇`Rank: `17`\n<:reply:1029065416905076808>Points: `16`\n"
    );
    assert!(pages[1].description.clone().unwrap().starts_with("**[T8](https://hacksquad.dev/team/s8)**"));
    assert!(pages[1].description.clone().unwrap().contains("Rank: `16`"));
    assert!(!pages[1].description.clone().unwrap().contains("T16"));
    assert_eq!(leaderboard_pages(&teams[..8].to_vec()).len(), 1);
    assert_eq!(leaderboard_pages(&Vec::new()).len(), 0);
}

#[test]
fn rank_follows_first_team_with_slug() {
    let teams = vec![team("A", "same", 3), team("B", "same", 2)];
    let d = leaderboard_pages(&teams)[0].description.clone().unwrap();
    assert_eq!(d.matches("Rank: `1`").count(), 2);
}

#[test]
fn ownership_notice_names_owner() {
    let e = ownership_notice(123456789012345678);
    assert_eq!(e.description.as_deref(), Some("This belongs to <@123456789012345678>"));
    assert_eq!(e.color, Some(COLOUR_RED));
    assert!(e.title.is_none());
}
