use hacksquad::api::Team;
use hacksquad::commands::teams::{handle_interaction, run, teams_pages, InteractionReply};
use hacksquad::data::PaginationMap;
use hacksquad::pagination::PageControl;

fn team(name: &str, slug: &str, score: u32) -> Team {
    Team { name: name.to_string(), score, slug: slug.to_string(), prs: None }
}

#[test]
fn ten_fields_to_a_page() {
    let teams: Vec<Team> = (0..11).map(|i| team(&format!("N{}", i), &format!("s{}", i), 5 * i)).collect();
    let pages = teams_pages(&teams);
    assert_eq!(pages.len(), 2);
    assert_eq!(pages[0].fields.len(), 10);
    assert_eq!(pages[1].fields.len(), 1);
    assert_eq!(pages[0].fields[0].name, "#1 N0");
    assert_eq!(pages[0].fields[0].value, "0 points");
    assert!(!pages[0].fields[0].inline);
    assert_eq!(pages[1].fields[0].name, "#11 N10");
    assert_eq!(pages[1].fields[0].value, "50 points");
    assert!(pages[0].title.is_none());
}

#[test]
fn expired_session_message() {
    let mut map = PaginationMap::new();
    match handle_interaction(&mut map, 4, Some(PageControl::First)) {
        InteractionReply::Expired(t) => {
            assert_eq!(t, "This embed has expired or  you don't have permission to interact with it.")
        }
        _ => panic!("no session"),
    }
    run(&mut map, 4, &vec![team("A", "a", 1)]);
    match handle_interaction(&mut map, 4, Some(PageControl::Last)) {
        InteractionReply::Show(e) => assert_eq!(e.footer_text.as_deref(), Some("Page 1 of 1")),
        _ => panic!("session opened"),
    }
}
