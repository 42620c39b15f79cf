use hacksquad::api::team::{Team, User, PR};
use hacksquad::commands::team::{count_deleted, pr_list, run, team_not_found, team_page, user_list};
use hacksquad::embed::{COLOUR_BLITZ_BLUE, COLOUR_RED};

fn user(name: &str, handle: &str) -> User {
    User { name: name.to_string(), handle: handle.to_string() }
}

fn pr(title: &str, url: &str, deleted: bool) -> PR {
    PR { status: if deleted { Some("deleted".to_string()) } else { None }, title: title.to_string(), url: url.to_string() }
}

fn team(name: &str, slug: &str, score: u32) -> Team {
    Team { name: name.to_string(), score, slug: slug.to_string(), prs: None, users: Some(vec![user("Ann", "ann"), user("Bob", "bob")]) }
}

#[test]
fn member_lines() {
    assert_eq!(
        user_list(&vec![user("Ann", "ann"), user("Bob", "bob")]),
        "<:reply_multi:1029067132572549142>[Ann](https://github.com/ann)\n<:reply:1029065416905076808>[Bob](https://github.com/bob)\n"
    );
    assert_eq!(user_list(&vec![]), "");
}

#[test]
fn pr_lines_take_three() {
    let prs = vec![pr("a", "u1", false), pr("b", "u2", true), pr("c", "u3", false), pr("d", "u4", true)];
    assert_eq!(
        pr_list(&prs),
        "<:reply_multi:1029067132572549142>[a](u1)\n<:reply_multi:1029067132572549142>[b](u2)\n<:reply:1029065416905076808>[c](u3)\n"
    );
    assert_eq!(count_deleted(&prs), 2);
    assert_eq!(pr_list(&vec![]), "");
}

#[test]
fn team_card() {
    let board = vec![team("Zed", "zed", 50), team("Ours", "ours", 30)];
    let prs = vec![pr("fix", "https://x/1", true), pr("feat", "https://x/2", false)];
    let card = run(&board[1], &board, Some(prs)).unwrap();
    assert_eq!(card.title.as_deref(), Some("HackSquad Team Information"));
    assert_eq!(card.color, Some(COLOUR_BLITZ_BLUE));
    assert_eq!(
        card.description.as_deref(),
        Some("`ℹ️` **Information**\n<:reply_multi:1029067132572549142>**Name:** Ours\n<:reply_multi:1029067132572549142>**Rank:**`2`\n<:reply_multi:1029067132572549142>**Score:** `30`\n<:reply_multi:1029067132572549142>**Total PRs:** `31`\n<:reply:1029065416905076808>**Total PRs Deleted:** `1`\n\n`🏆` **Team Members**\n<:reply_multi:1029067132572549142>[Ann](https://github.com/ann)\n<:reply:1029065416905076808>[Bob](https://github.com/bob)\n\n`🔗` **Last 3 PRs**\n<:reply_multi:1029067132572549142>[fix](https://x/1)\n<:reply_multi:1029067132572549142>[feat](https://x/2)\n")
    );
}

#[test]
fn team_without_prs_shows_nothing() {
    let board = vec![team("Zed", "zed", 50)];
    assert!(run(&board[0], &board, None).is_none());
}

#[test]
fn not_found_and_page() {
    let e = team_not_found("ghost");
    assert_eq!(e.title.as_deref(), Some("Oh no! An error occurred..."));
    assert_eq!(e.description.as_deref(), Some("```Team not found```"));
    assert_eq!(e.color, Some(COLOUR_RED));
    assert_eq!(e.fields.len(), 1);
    assert_eq!(e.fields[0].name, "Query");
    assert_eq!(e.fields[0].value, "ghost");
    assert!(!e.fields[0].inline);
    assert_eq!(e.footer_text.as_deref(), Some("Any Questions? Well we dont have a support chat :P"));
    assert_eq!(team_page("ours"), "https://hacksquad.dev/team/ours");
}
