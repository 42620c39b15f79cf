use hacksquad::api::team::Team;
use hacksquad::commands::leaderboard::{handle_interaction, run, InteractionReply};
use hacksquad::data::{PaginationMap, SessionOutcome};
use hacksquad::embed::{Embed, COLOUR_RED};
use hacksquad::pagination::{PageControl, Pagination};

fn team(name: &str, slug: &str, score: u32) -> Team {
    Team { name: name.to_string(), score, slug: slug.to_string(), prs: None, users: None }
}

fn board(n: usize) -> Vec<Team> {
    (0..n).map(|i| team(&format!("Team {}", i), &format!("t{}", i), 100 - i as u32)).collect()
}

#[test]
fn press_without_session_stores_an_empty_one() {
    let mut map = PaginationMap::new();
    match map.press(9, Some(PageControl::Next)) {
        SessionOutcome::Expired => {}
        _ => panic!("expected expired"),
    }
    assert_eq!(map.len(), 1);
    assert_eq!(map.get(9).unwrap().page_count(), 0);
    assert_eq!(map.get(9).unwrap().author(), None);
}

#[test]
fn stored_session_is_turned() {
    let mut map = PaginationMap::new();
    let mut p = Pagination::new(vec![Embed::blank(), Embed::blank()]);
    p.handle_message(3);
    map.insert(3, p);
    match map.press(3, Some(PageControl::Last)) {
        SessionOutcome::Show(e) => assert_eq!(e.footer_text.as_deref(), Some("Page 2 of 2")),
        _ => panic!("expected a page"),
    }
    assert_eq!(map.get(3).unwrap().index(), 1);
}

#[test]
fn only_the_owner_may_turn_pages() {
    let mut map = PaginationMap::new();
    let first = run(&mut map, 10, &board(20));
    assert_eq!(first.footer_text.as_deref(), Some("Page 1 of 3"));
    match handle_interaction(&mut map, 11, 10, Some(PageControl::Next)) {
        InteractionReply::NotYours(e) => {
            assert_eq!(e.description.as_deref(), Some("This belongs to <@10>"));
            assert_eq!(e.color, Some(COLOUR_RED));
        }
        _ => panic!("a stranger must be refused"),
    }
    assert_eq!(map.get(10).unwrap().index(), 0);
    assert!(map.get(11).is_none());
    match handle_interaction(&mut map, 10, 10, Some(PageControl::Next)) {
        InteractionReply::Show(e) => assert_eq!(e.footer_text.as_deref(), Some("Page 2 of 3")),
        _ => panic!("the owner turns the page"),
    }
}

#[test]
fn delete_removes_only_that_session() {
    let mut map = PaginationMap::new();
    run(&mut map, 1, &board(3));
    run(&mut map, 2, &board(3));
    match handle_interaction(&mut map, 1, 1, Some(PageControl::Delete)) {
        InteractionReply::Close => {}
        _ => panic!("delete closes"),
    }
    assert!(map.get(1).is_none());
    assert_eq!(map.get(2).unwrap().author(), Some(2));
    match handle_interaction(&mut map, 1, 1, Some(PageControl::Next)) {
        InteractionReply::NotYours(e) => assert_eq!(e.description.as_deref(), Some("This belongs to <@1>")),
        _ => panic!("a forgotten session has no owner"),
    }
}
