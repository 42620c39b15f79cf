use hacksquad::embed::Embed;
use hacksquad::pagination::{ButtonStyle, PageAction, PageControl, Pagination};

fn page(title: &str) -> Embed {
    let mut e = Embed::blank();
    e.title = Some(title.to_string());
    e
}

fn three_pages() -> Pagination {
    Pagination::new(vec![page("one"), page("two"), page("three")])
}

fn shown(a: PageAction) -> Embed {
    match a {
        PageAction::Show(e) => e,
        PageAction::Close => panic!("expected a page"),
    }
}

#[test]
fn custom_ids_round_trip() {
    for c in PageControl::row() {
        assert_eq!(PageControl::from_custom_id(c.custom_id()), Some(c));
    }
    assert_eq!(PageControl::First.custom_id(), "<:first:1029775638061654087>");
    assert_eq!(PageControl::Delete.custom_id(), "🗑️");
    assert_eq!(PageControl::from_custom_id("spam"), None);
}

#[test]
fn button_row_and_styles() {
    assert_eq!(
        PageControl::row(),
        vec![PageControl::First, PageControl::Prev, PageControl::Delete, PageControl::Next, PageControl::Last]
    );
    assert_eq!(PageControl::Delete.style(), ButtonStyle::Danger);
    assert_eq!(PageControl::Next.style(), ButtonStyle::Primary);
}

#[test]
fn opening_shows_first_page_with_footer() {
    let mut p = three_pages();
    assert_eq!(p.author(), None);
    let e = p.handle_message(77);
    assert_eq!(p.author(), Some(77));
    assert_eq!(e.title.as_deref(), Some("one"));
    assert_eq!(e.footer_text.as_deref(), Some("Page 1 of 3"));
}

#[test]
fn next_wraps_to_first() {
    let mut p = three_pages();
    p.handle_message(1);
    assert_eq!(shown(p.handle_interaction_and_delete_pagination(Some(PageControl::Next))).footer_text.as_deref(), Some("Page 2 of 3"));
    p.handle_interaction_and_delete_pagination(Some(PageControl::Next));
    let e = shown(p.handle_interaction_and_delete_pagination(Some(PageControl::Next)));
    assert_eq!(p.index(), 0);
    assert_eq!(e.title.as_deref(), Some("one"));
}

#[test]
fn prev_wraps_to_last() {
    let mut p = three_pages();
    p.handle_message(1);
    let e = shown(p.handle_interaction_and_delete_pagination(Some(PageControl::Prev)));
    assert_eq!(p.index(), 2);
    assert_eq!(e.title.as_deref(), Some("three"));
    assert_eq!(e.footer_text.as_deref(), Some("Page 3 of 3"));
}

#[test]
fn prev_undoes_next() {
    let mut p = three_pages();
    p.handle_message(1);
    for _ in 0..4 {
        let before = p.index();
        p.handle_interaction_and_delete_pagination(Some(PageControl::Next));
        p.handle_interaction_and_delete_pagination(Some(PageControl::Prev));
        assert_eq!(p.index(), before);
        p.handle_interaction_and_delete_pagination(Some(PageControl::Next));
    }
}

#[test]
fn next_cycles_through_all_pages() {
    let mut p = three_pages();
    p.handle_message(1);
    p.handle_interaction_and_delete_pagination(Some(PageControl::Next));
    for _ in 0..3 {
        p.handle_interaction_and_delete_pagination(Some(PageControl::Next));
    }
    assert_eq!(p.index(), 1);
}

#[test]
fn first_and_last() {
    let mut p = three_pages();
    p.handle_message(1);
    let e = shown(p.handle_interaction_and_delete_pagination(Some(PageControl::Last)));
    assert_eq!(e.title.as_deref(), Some("three"));
    let e = shown(p.handle_interaction_and_delete_pagination(Some(PageControl::First)));
    assert_eq!(e.title.as_deref(), Some("one"));
    assert_eq!(p.index(), 0);
}

#[test]
fn unknown_button_keeps_page() {
    let mut p = three_pages();
    p.handle_message(1);
    p.handle_interaction_and_delete_pagination(Some(PageControl::Next));
    let e = shown(p.handle_interaction_and_delete_pagination(None));
    assert_eq!(p.index(), 1);
    assert_eq!(e.title.as_deref(), Some("two"));
}

#[test]
fn delete_closes_and_forgets() {
    let mut p = three_pages();
    p.handle_message(1);
    p.handle_interaction_and_delete_pagination(Some(PageControl::Next));
    match p.handle_interaction_and_delete_pagination(Some(PageControl::Delete)) {
        PageAction::Close => {}
        PageAction::Show(_) => panic!("delete must close"),
    }
    assert_eq!(p.page_count(), 0);
    assert_eq!(p.index(), 0);
    assert_eq!(p.author(), None);
}

#[test]
fn single_page_wraps_onto_itself() {
    let mut p = Pagination::new(vec![page("only")]);
    p.handle_message(5);
    let e = shown(p.handle_interaction_and_delete_pagination(Some(PageControl::Next)));
    assert_eq!(e.footer_text.as_deref(), Some("Page 1 of 1"));
    let e = shown(p.handle_interaction_and_delete_pagination(Some(PageControl::Prev)));
    assert_eq!(e.title.as_deref(), Some("only"));
}
