//! The teams command: every team with its rank and points, ten to a page,
//! in a paginated message.

use vstd::prelude::*;
use vstd::string::StringExecFns;

use crate::api::Team;
use crate::commands::leaderboard::{chunk_end, page_count};
use crate::data::{sessions_after_press, session_of, PaginationMap, SessionOutcome};
use crate::embed::{blank_model, Embed, EmbedField, EmbedModel, FieldModel};
use crate::pagination::{pressed, shown_page, PageControl, Pagination, PaginationModel};
use crate::text::{decimal, first_index, lemma_first_index, position_of, push_decimal, texts};

verus! {

/// The slugs of the teams, in order.
pub open spec fn team_slug_texts(teams: Seq<Team>) -> Seq<Seq<char>> {
    teams.map_values(|t: Team| t.slug@)
}

/// The field of one team: "#rank name" over "score points".
pub open spec fn team_field(teams: Seq<Team>, t: Team) -> FieldModel {
    (
        "#"@ + decimal((first_index(team_slug_texts(teams), t.slug@) + 1) as nat) + " "@ + t.name@,
        decimal(t.score as nat) + " points"@,
        false,
    )
}

/// Page `k`: the fields of the teams from position 10k on, at most ten.
pub open spec fn teams_page(teams: Seq<Team>, k: int) -> EmbedModel {
    EmbedModel {
        fields: teams.subrange(10 * k, chunk_end(teams.len() as int, 10 * k, 10)).map_values(
            |t: Team| team_field(teams, t),
        ),
        ..blank_model()
    }
}

/// The pages, as a sequence.
pub open spec fn teams_pages_model(teams: Seq<Team>) -> Seq<EmbedModel> {
    Seq::new(page_count(teams.len() as int, 10) as nat, |k: int| teams_page(teams, k))
}

fn field_at(teams: &Vec<Team>, slugs: &Vec<String>, j: usize) -> (f: EmbedField)
    requires
        j < teams@.len(),
        texts(slugs@) == team_slug_texts(teams@),
    ensures
        f@ == team_field(teams@, teams@[j as int]),
{
    let n = teams.len();
    let t = &teams[j];
    let p = position_of(slugs, &t.slug);
    proof {
        lemma_first_index(texts(slugs@), t.slug@, 0);
        assert(texts(slugs@)[j as int] == t.slug@);
        assert(p <= j);
    }
    let mut name = String::from_str("#");
    push_decimal(&mut name, (p + 1) as u64);
    name.append(" ");
    name.append(t.name.as_str());
    let mut value = String::new();
    push_decimal(&mut value, t.score as u64);
    value.append(" points");
    assert(name@ =~= team_field(teams@, teams@[j as int]).0);
    assert(value@ =~= team_field(teams@, teams@[j as int]).1);
    EmbedField::new(name, value, false)
}

/// The teams as pages of at most ten fields, in order.
pub fn teams_pages(teams: &Vec<Team>) -> (pages: Vec<Embed>)
    ensures
        pages@.map_values(|e: Embed| e@) == teams_pages_model(teams@),
{
    let n = teams.len();
    let mut slugs: Vec<String> = Vec::new();
    for i in 0..n
        invariant
            n == teams@.len(),
            slugs@.len() == i,
            forall|j: int| 0 <= j < i ==> #[trigger] slugs@[j]@ == teams@[j].slug@,
    {
        slugs.push(teams[i].slug.clone());
    }
    assert(texts(slugs@) =~= team_slug_texts(teams@));
    let mut pages: Vec<Embed> = Vec::new();
    let mut start: usize = 0;
    while start < n
        invariant
            n == teams@.len(),
            texts(slugs@) == team_slug_texts(teams@),
            start <= n,
            start == (if 10 * pages@.len() <= n {
                10 * pages@.len() as int
            } else {
                n as int
            }),
            pages@.len() == 0 || 10 * (pages@.len() - 1) < n,
            forall|k: int| 0 <= k < pages@.len() ==> #[trigger] pages@[k]@ == teams_page(teams@, k),
        decreases n - start,
    {
        let end = if n - start > 10 { start + 10 } else { n };
        let mut fields: Vec<EmbedField> = Vec::new();
        let mut j = start;
        while j < end
            invariant
                n == teams@.len(),
                texts(slugs@) == team_slug_texts(teams@),
                start <= j <= end <= n,
                fields@.len() == j - start,
                forall|i: int| 0 <= i < j - start ==> #[trigger] fields@[i]@ == team_field(
                    teams@,
                    teams@[start + i],
                ),
            decreases end - j,
        {
            fields.push(field_at(teams, &slugs, j));
            j = j + 1;
        }
        let mut page = Embed::blank();
        page.fields = fields;
        let ghost k = pages@.len() as int;
        assert(page@.fields =~= teams_page(teams@, k).fields);
        pages.push(page);
        start = end;
    }
    assert(pages@.map_values(|e: Embed| e@) =~= teams_pages_model(teams@));
    pages
}

/// Opens the teams list for the user `user`: the first page is returned to be
/// shown, and the message is stored as `user`'s session.
pub fn run(map: &mut PaginationMap, user: u64, teams: &Vec<Team>) -> (first: Embed)
    requires
        old(map).wf(),
        teams@.len() > 0,
    ensures
        final(map).wf(),
        final(map)@ == old(map)@.insert(
            user,
            PaginationModel { pages: teams_pages_model(teams@), index: 0, author: Some(user) },
        ),
        first@ == shown_page(
            PaginationModel { pages: teams_pages_model(teams@), index: 0, author: Some(user) },
        ),
{
    let pages = teams_pages(teams);
    let mut pagination = Pagination::new(pages);
    let first = pagination.handle_message(user);
    map.insert(user, pagination);
    first
}

/// The answer to a press on a message that no one opened.
pub open spec fn expired_text() -> Seq<char> {
    "This embed has expired or "@ + " you don't have permission to interact with it."@
}

/// What the bot answers to a button press on the teams list.
pub enum InteractionReply {
    /// Tell the presser, privately, that the message has expired or is not theirs.
    Expired(String),
    /// Edit the message to show this page.
    Show(Embed),
    /// Disable the message's buttons.
    Close,
}

/// Handles a press of `control` by `clicker` on the teams list.
pub fn handle_interaction(map: &mut PaginationMap, clicker: u64, control: Option<PageControl>) -> (r:
    InteractionReply)
    requires
        old(map).wf(),
    ensures
        final(map).wf(),
        final(map)@ == sessions_after_press(old(map)@, clicker, control),
        r is Expired <==> session_of(old(map)@, clicker).author is None,
        r matches InteractionReply::Expired(t) ==> t@ == expired_text(),
        r is Close <==> (session_of(old(map)@, clicker).author is Some && control == Some(
            PageControl::Delete,
        )),
        r matches InteractionReply::Show(e) ==> e@ == shown_page(
            pressed(session_of(old(map)@, clicker), control),
        ),
{
    match map.press(clicker, control) {
        SessionOutcome::Expired => {
            let mut t = String::from_str("This embed has expired or ");
            t.append(" you don't have permission to interact with it.");
            InteractionReply::Expired(t)
        },
        SessionOutcome::Show(e) => InteractionReply::Show(e),
        SessionOutcome::Close => InteractionReply::Close,
    }
}

} // verus!
