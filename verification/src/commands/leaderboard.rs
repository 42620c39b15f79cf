//! The leaderboard command: the ranked teams, eight to a page, in a
//! paginated message that only the user who asked for it may turn.

use vstd::prelude::*;
use vstd::string::StringExecFns;

use crate::api::team::Team;
use crate::data::{sessions_after_press, session_of, PaginationMap, SessionOutcome};
use crate::embed::{blank_model, Embed, EmbedModel, COLOUR_BLITZ_BLUE, COLOUR_RED};
use crate::pagination::{
    pressed, shown_page, PageControl, Pagination, PaginationModel,
};
use crate::text::{
    decimal, first_index, lemma_first_index, position_of, push_decimal, texts,
};

verus! {

/// The slugs of the teams, in order.
pub open spec fn slug_texts(teams: Seq<Team>) -> Seq<Seq<char>> {
    teams.map_values(|t: Team| t.slug@)
}

/// The rank of the team with `slug`: one more than the position of the first
/// team with that slug.
pub open spec fn rank_of(teams: Seq<Team>, slug: Seq<char>) -> int {
    first_index(slug_texts(teams), slug) + 1
}

/// The leaderboard lines of one team.
pub open spec fn entry_text(teams: Seq<Team>, t: Team) -> Seq<char> {
    "**["@ + t.name@ + "](https://hacksquad.dev/team/"@ + t.slug@
        + ")**\n<:reply_multi:1029067132572549142>`🥇`Rank: `"@ + decimal(
        rank_of(teams, t.slug@) as nat,
    ) + "`\n<:reply:1029065416905076808>Points: `"@ + decimal(t.score as nat) + "`\n"@
}

/// The lines of the teams at positions `start` up to `end`.
pub open spec fn entries_text(teams: Seq<Team>, start: int, end: int) -> Seq<char>
    decreases end - start,
{
    if end <= start {
        Seq::empty()
    } else {
        entries_text(teams, start, end - 1) + entry_text(teams, teams[end - 1])
    }
}

/// The thumbnail of the HackSquad cards.
pub open spec fn hacksquad_thumbnail() -> Seq<char> {
    "https://cdn.discordapp.com/emojis/1026095278941552690.webp?size=128&quality=lossless"@
}

/// The end of the page that starts at `start`: `size` further on, or the end.
pub open spec fn chunk_end(n: int, start: int, size: int) -> int {
    if start + size < n {
        start + size
    } else {
        n
    }
}

/// The number of pages of `size` items that `n` items fill.
pub open spec fn page_count(n: int, size: int) -> int {
    (n + size - 1) / size
}

/// Page `k` of the leaderboard: the teams from position 8k on, at most eight.
pub open spec fn leaderboard_page(teams: Seq<Team>, k: int) -> EmbedModel {
    EmbedModel {
        title: Some("HackSquad Leaderboard"@),
        url: Some("https://hacksquad.dev/leaderboard"@),
        description: Some(entries_text(teams, 8 * k, chunk_end(teams.len() as int, 8 * k, 8))),
        color: Some(COLOUR_BLITZ_BLUE),
        thumbnail: Some(hacksquad_thumbnail()),
        ..blank_model()
    }
}

/// The slugs of the teams, copied.
pub fn team_slugs(teams: &Vec<Team>) -> (s: Vec<String>)
    ensures
        texts(s@) == slug_texts(teams@),
{
    let mut s: Vec<String> = Vec::new();
    let n = teams.len();
    for i in 0..n
        invariant
            n == teams@.len(),
            s@.len() == i,
            forall|j: int| 0 <= j < i ==> #[trigger] s@[j]@ == teams@[j].slug@,
    {
        s.push(teams[i].slug.clone());
    }
    assert(texts(s@) =~= slug_texts(teams@));
    s
}

/// The rank of the team at position `j`, which is at most `j + 1`.
pub fn rank_at(teams: &Vec<Team>, slugs: &Vec<String>, j: usize) -> (r: usize)
    requires
        j < teams@.len(),
        texts(slugs@) == slug_texts(teams@),
    ensures
        r == rank_of(teams@, teams@[j as int].slug@),
        1 <= r <= j + 1,
{
    let n = teams.len();
    let p = position_of(slugs, &teams[j].slug);
    proof {
        lemma_first_index(texts(slugs@), teams@[j as int].slug@, 0);
        assert(texts(slugs@)[j as int] == teams@[j as int].slug@);
        assert(p <= j);
    }
    p + 1
}

fn push_entry(out: &mut String, teams: &Vec<Team>, slugs: &Vec<String>, j: usize)
    requires
        j < teams@.len(),
        texts(slugs@) == slug_texts(teams@),
    ensures
        final(out)@ == old(out)@ + entry_text(teams@, teams@[j as int]),
{
    let t = &teams[j];
    let rank = rank_at(teams, slugs, j);
    out.append("**[");
    out.append(t.name.as_str());
    out.append("](https://hacksquad.dev/team/");
    out.append(t.slug.as_str());
    out.append(")**\n<:reply_multi:1029067132572549142>`🥇`Rank: `");
    push_decimal(out, rank as u64);
    out.append("`\n<:reply:1029065416905076808>Points: `");
    push_decimal(out, t.score as u64);
    out.append("`\n");
    assert(final(out)@ =~= old(out)@ + entry_text(teams@, teams@[j as int]));
}

/// The leaderboard as pages of at most eight teams, in leaderboard order.
pub fn leaderboard_pages(teams: &Vec<Team>) -> (pages: Vec<Embed>)
    ensures
        pages@.len() == page_count(teams@.len() as int, 8),
        forall|k: int| 0 <= k < pages@.len() ==> #[trigger] pages@[k]@ == leaderboard_page(teams@, k),
{
    let n = teams.len();
    let slugs = team_slugs(teams);
    let mut pages: Vec<Embed> = Vec::new();
    let mut start: usize = 0;
    while start < n
        invariant
            n == teams@.len(),
            texts(slugs@) == slug_texts(teams@),
            start <= n,
            start == (if 8 * pages@.len() <= n { 8 * pages@.len() as int } else { n as int }),
            pages@.len() == 0 || 8 * (pages@.len() - 1) < n,
            forall|k: int| 0 <= k < pages@.len() ==> #[trigger] pages@[k]@ == leaderboard_page(teams@, k),
        decreases n - start,
    {
        let end = if n - start > 8 { start + 8 } else { n };
        let mut description = String::new();
        let mut j = start;
        while j < end
            invariant
                n == teams@.len(),
                texts(slugs@) == slug_texts(teams@),
                start <= j <= end <= n,
                description@ == entries_text(teams@, start as int, j as int),
            decreases end - j,
        {
            push_entry(&mut description, teams, &slugs, j);
            j = j + 1;
        }
        let mut page = Embed::blank();
        page.title = Some(String::from_str("HackSquad Leaderboard"));
        page.url = Some(String::from_str("https://hacksquad.dev/leaderboard"));
        page.description = Some(description);
        page.color = Some(COLOUR_BLITZ_BLUE);
        page.thumbnail = Some(String::from_str(
            "https://cdn.discordapp.com/emojis/1026095278941552690.webp?size=128&quality=lossless",
        ));
        let ghost k = pages@.len() as int;
        assert(page@ == leaderboard_page(teams@, k));
        pages.push(page);
        start = end;
    }
    pages
}

/// The leaderboard pages, as a sequence.
pub open spec fn leaderboard_pages_model(teams: Seq<Team>) -> Seq<EmbedModel> {
    Seq::new(page_count(teams.len() as int, 8) as nat, |k: int| leaderboard_page(teams, k))
}

/// The notice that a paginated message belongs to the user `owner`.
pub open spec fn ownership_notice_model(owner: u64) -> EmbedModel {
    EmbedModel {
        description: Some("This belongs to <@"@ + decimal(owner as nat) + ">"@),
        color: Some(COLOUR_RED),
        ..blank_model()
    }
}

/// The notice that a paginated message belongs to the user `owner`.
pub fn ownership_notice(owner: u64) -> (e: Embed)
    ensures
        e@ == ownership_notice_model(owner),
{
    let mut description = String::from_str("This belongs to <@");
    push_decimal(&mut description, owner);
    description.append(">");
    let mut e = Embed::blank();
    e.description = Some(description);
    e.color = Some(COLOUR_RED);
    e
}

/// Opens the leaderboard for the user `user`: the pages are built, the first
/// is returned to be shown, and the message is stored as `user`'s session.
pub fn run(map: &mut PaginationMap, user: u64, teams: &Vec<Team>) -> (first: Embed)
    requires
        old(map).wf(),
        teams@.len() > 0,
    ensures
        final(map).wf(),
        final(map)@ == old(map)@.insert(
            user,
            PaginationModel {
                pages: leaderboard_pages_model(teams@),
                index: 0,
                author: Some(user),
            },
        ),
        first@ == shown_page(
            PaginationModel { pages: leaderboard_pages_model(teams@), index: 0, author: Some(user) },
        ),
{
    let pages = leaderboard_pages(teams);
    assert(pages@.map_values(|e: Embed| e@) =~= leaderboard_pages_model(teams@));
    let mut pagination = Pagination::new(pages);
    let first = pagination.handle_message(user);
    map.insert(user, pagination);
    first
}

/// What the bot answers to a button press on a leaderboard.
pub enum InteractionReply {
    /// Tell the presser, privately, that the message is not theirs.
    NotYours(Embed),
    /// Edit the message to show this page.
    Show(Embed),
    /// Disable the message's buttons.
    Close,
}

/// Handles a press of `control` by `clicker` on a leaderboard opened by
/// `owner`: only the owner may turn its pages.
pub fn handle_interaction(
    map: &mut PaginationMap,
    clicker: u64,
    owner: u64,
    control: Option<PageControl>,
) -> (r: InteractionReply)
    requires
        old(map).wf(),
    ensures
        final(map).wf(),
        clicker != owner ==> final(map)@ == old(map)@,
        clicker == owner ==> final(map)@ == sessions_after_press(old(map)@, clicker, control),
        r is NotYours <==> (clicker != owner || session_of(old(map)@, clicker).author is None),
        r matches InteractionReply::NotYours(e) ==> e@ == ownership_notice_model(owner),
        r is Close <==> (clicker == owner && session_of(old(map)@, clicker).author is Some
            && control == Some(PageControl::Delete)),
        r matches InteractionReply::Show(e) ==> e@ == shown_page(
            pressed(session_of(old(map)@, clicker), control),
        ),
{
    if clicker != owner {
        return InteractionReply::NotYours(ownership_notice(owner));
    }
    match map.press(clicker, control) {
        SessionOutcome::Expired => InteractionReply::NotYours(ownership_notice(owner)),
        SessionOutcome::Show(e) => InteractionReply::Show(e),
        SessionOutcome::Close => InteractionReply::Close,
    }
}

/// When no two teams share a slug, a team's rank is its place on the
/// leaderboard: one more than its position.
pub proof fn lemma_rank_is_place(teams: Seq<Team>, j: int)
    requires
        0 <= j < teams.len(),
        forall|a: int, b: int| 0 <= a < b < teams.len() ==> teams[a].slug@ != teams[b].slug@,
    ensures
        rank_of(teams, teams[j].slug@) == j + 1,
{
    let s = slug_texts(teams);
    lemma_first_index(s, teams[j].slug@, 0);
    let f = first_index(s, teams[j].slug@);
    assert(s[j] == teams[j].slug@);
    if f < j {
        assert(s[f] == teams[f].slug@);
    }
}

/// Every team is listed on the page of its position divided by eight.
pub proof fn lemma_team_on_its_page(teams: Seq<Team>, j: int)
    requires
        0 <= j < teams.len(),
    ensures
        0 <= j / 8 < page_count(teams.len() as int, 8),
        8 * (j / 8) <= j < chunk_end(teams.len() as int, 8 * (j / 8), 8),
{
}

} // verus!
