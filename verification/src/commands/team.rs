//! The team command: a team's rank, score, members and latest pull requests.

use vstd::prelude::*;
use vstd::string::StringExecFns;

use crate::api::team::{Team, User, PR};
use crate::commands::leaderboard::{hacksquad_thumbnail, rank_of, slug_texts, team_slugs};
use crate::embed::{blank_model, Embed, EmbedField, EmbedModel, COLOUR_BLITZ_BLUE};
use crate::text::{decimal, first_index, position_of, push_decimal};
use crate::utils::embeds::{error_embed, error_model};

verus! {

/// The reply emoji that closes a list.
pub open spec fn reply_last() -> Seq<char> {
    "<:reply:1029065416905076808>"@
}

/// The reply emoji that continues a list.
pub open spec fn reply_more() -> Seq<char> {
    "<:reply_multi:1029067132572549142>"@
}

/// The line of one member, closing the list when `last`.
pub open spec fn user_line(u: User, last: bool) -> Seq<char> {
    (if last {
        reply_last()
    } else {
        reply_more()
    }) + "["@ + u.name@ + "](https://github.com/"@ + u.handle@ + ")\n"@
}

/// The lines of the first `upto` members.
pub open spec fn user_lines(users: Seq<User>, upto: int) -> Seq<char>
    decreases upto,
{
    if upto <= 0 {
        Seq::empty()
    } else {
        user_lines(users, upto - 1) + user_line(users[upto - 1], upto - 1 == users.len() - 1)
    }
}

/// The line of the pull request at position `index`; the third closes the list.
pub open spec fn pr_line(pr: PR, index: int) -> Seq<char> {
    (if index == 2 {
        reply_last()
    } else {
        reply_more()
    }) + "["@ + pr.title@ + "]("@ + pr.url@ + ")\n"@
}

/// The lines of the first `upto` pull requests.
pub open spec fn pr_lines(prs: Seq<PR>, upto: int) -> Seq<char>
    decreases upto,
{
    if upto <= 0 {
        Seq::empty()
    } else {
        pr_lines(prs, upto - 1) + pr_line(prs[upto - 1], upto - 1)
    }
}

/// How many of the first `upto` pull requests were deleted.
pub open spec fn deleted_count(prs: Seq<PR>, upto: int) -> nat
    decreases upto,
{
    if upto <= 0 {
        0
    } else {
        deleted_count(prs, upto - 1) + (if prs[upto - 1].status is Some {
            1nat
        } else {
            0nat
        })
    }
}

/// At most three.
pub open spec fn first_three(n: int) -> int {
    if n < 3 {
        n
    } else {
        3
    }
}

/// The description of the team card.
pub open spec fn team_description(team: Team, rank: int, users: Seq<User>, prs: Seq<PR>) -> Seq<
    char,
> {
    let deleted = deleted_count(prs, prs.len() as int);
    "`ℹ️` **Information**\n<:reply_multi:1029067132572549142>**Name:** "@ + team.name@
        + "\n<:reply_multi:1029067132572549142>**Rank:**`"@ + decimal(rank as nat)
        + "`\n<:reply_multi:1029067132572549142>**Score:** `"@ + decimal(team.score as nat)
        + "`\n<:reply_multi:1029067132572549142>**Total PRs:** `"@ + decimal(
        (team.score + deleted) as nat,
    ) + "`\n<:reply:1029065416905076808>**Total PRs Deleted:** `"@ + decimal(deleted) + "`\n\n`🏆` **Team Members**\n"@
        + user_lines(users, users.len() as int) + "\n`🔗` **Last 3 PRs**\n"@ + pr_lines(
        prs,
        first_three(prs.len() as int),
    )
}

/// The team card.
pub open spec fn team_card(team: Team, rank: int, users: Seq<User>, prs: Seq<PR>) -> EmbedModel {
    EmbedModel {
        title: Some("HackSquad Team Information"@),
        description: Some(team_description(team, rank, users, prs)),
        color: Some(COLOUR_BLITZ_BLUE),
        thumbnail: Some(hacksquad_thumbnail()),
        ..blank_model()
    }
}

/// The team's page on the HackSquad site.
pub open spec fn team_page_url(slug: Seq<char>) -> Seq<char> {
    "https://hacksquad.dev/team/"@ + slug
}

/// The team's page on the HackSquad site, for the card's link button.
pub fn team_page(slug: &str) -> (s: String)
    ensures
        s@ == team_page_url(slug@),
{
    let mut s = String::from_str("https://hacksquad.dev/team/");
    s.append(slug);
    s
}

/// The card shown when no team has the id `team_id`.
pub fn team_not_found(team_id: &str) -> (e: Embed)
    ensures
        e@ == error_model("Team not found"@, seq![("Query"@, team_id@, false)]),
{
    let mut fields: Vec<EmbedField> = Vec::new();
    fields.push(EmbedField::new(String::from_str("Query"), team_id.to_owned(), false));
    assert(fields@.map_values(|f: EmbedField| f@) =~= seq![("Query"@, team_id@, false)]);
    error_embed("Team not found", fields)
}

/// The counting of the first `upto` pull requests reads only those.
proof fn lemma_deleted_count_reads_prefix(a: Seq<PR>, b: Seq<PR>, upto: int)
    requires
        0 <= upto <= a.len(),
        upto <= b.len(),
        forall|i: int| 0 <= i < upto ==> a[i] == b[i],
    ensures
        deleted_count(a, upto) == deleted_count(b, upto),
    decreases upto,
{
    if upto > 0 {
        lemma_deleted_count_reads_prefix(a, b, upto - 1);
    }
}

/// The deleted count is the number of pull requests whose status is set.
pub proof fn lemma_deleted_count_is_set_statuses(prs: Seq<PR>)
    ensures
        deleted_count(prs, prs.len() as int) == prs.filter(|pr: PR| pr.status is Some).len(),
    decreases prs.len(),
{
    reveal(Seq::filter);
    if prs.len() > 0 {
        lemma_deleted_count_is_set_statuses(prs.drop_last());
        lemma_deleted_count_reads_prefix(prs, prs.drop_last(), prs.len() - 1);
    }
}

/// A pull request without a status leaves the deleted count as it is; one
/// with a status raises it by one. So pull requests that all lack a status
/// count zero, and the count never exceeds the number of pull requests.
pub proof fn lemma_deleted_count_push(prs: Seq<PR>, pr: PR)
    ensures
        deleted_count(prs.push(pr), prs.len() + 1int) == deleted_count(prs, prs.len() as int) + (
        if pr.status is Some {
            1int
        } else {
            0int
        }),
        deleted_count(prs, prs.len() as int) <= prs.len(),
        (forall|i: int| 0 <= i < prs.len() ==> (#[trigger] prs[i]).status is None) ==> deleted_count(
            prs,
            prs.len() as int,
        ) == 0,
{
    lemma_deleted_count_is_set_statuses(prs);
    lemma_deleted_count_is_set_statuses(prs.push(pr));
    reveal(Seq::filter);
    assert(prs.push(pr).drop_last() =~= prs);
    prs.lemma_filter_len(|pr: PR| pr.status is Some);
    let f = prs.filter(|pr: PR| pr.status is Some);
    if forall|i: int| 0 <= i < prs.len() ==> (#[trigger] prs[i]).status is None {
        if f.len() > 0 {
            prs.lemma_filter_pred(|pr: PR| pr.status is Some, 0);
            prs.lemma_filter_contains_rev(|pr: PR| pr.status is Some, f[0]);
            assert(prs.contains(f[0]));
        }
    }
}

/// The number of deleted pull requests: those whose status is set.
pub fn count_deleted(prs: &Vec<PR>) -> (n: usize)
    ensures
        n == deleted_count(prs@, prs@.len() as int),
        n == prs@.filter(|pr: PR| pr.status is Some).len(),
{
    proof {
        lemma_deleted_count_is_set_statuses(prs@);
    }
    let mut n: usize = 0;
    let len = prs.len();
    for i in 0..len
        invariant
            len == prs@.len(),
            n == deleted_count(prs@, i as int),
            n <= i,
    {
        if prs[i].status.is_some() {
            n = n + 1;
        }
    }
    n
}

/// The member lines.
pub fn user_list(users: &Vec<User>) -> (s: String)
    ensures
        s@ == user_lines(users@, users@.len() as int),
{
    let mut s = String::new();
    let n = users.len();
    for i in 0..n
        invariant
            n == users@.len(),
            s@ == user_lines(users@, i as int),
    {
        let u = &users[i];
        if n - 1 == i {
            s.append("<:reply:1029065416905076808>");
        } else {
            s.append("<:reply_multi:1029067132572549142>");
        }
        s.append("[");
        s.append(u.name.as_str());
        s.append("](https://github.com/");
        s.append(u.handle.as_str());
        s.append(")\n");
        assert(s@ =~= user_lines(users@, i + 1));
    }
    s
}

/// The lines of the first three pull requests.
pub fn pr_list(prs: &Vec<PR>) -> (s: String)
    requires
        prs@.len() != 1,
    ensures
        s@ == pr_lines(prs@, first_three(prs@.len() as int)),
{
    let mut s = String::new();
    let n = if prs.len() < 3 { prs.len() } else { 3 };
    for i in 0..n
        invariant
            n == first_three(prs@.len() as int),
            s@ == pr_lines(prs@, i as int),
    {
        let pr = &prs[i];
        if i == 2 {
            s.append("<:reply:1029065416905076808>");
        } else {
            s.append("<:reply_multi:1029067132572549142>");
        }
        s.append("[");
        s.append(pr.title.as_str());
        s.append("](");
        s.append(pr.url.as_str());
        s.append(")\n");
        assert(s@ =~= pr_lines(prs@, i + 1));
    }
    s
}

/// The team card of `team`, with its rank on `leaderboard` and its pull
/// requests `prs`; None when the team has no pull request list, in which case
/// nothing is shown.
pub fn run(team: &Team, leaderboard: &Vec<Team>, prs: Option<Vec<PR>>) -> (card: Option<Embed>)
    requires
        team.users is Some,
        prs matches Some(p) ==> {
            &&& p@.len() != 1
            &&& first_index(slug_texts(leaderboard@), team.slug@) < leaderboard@.len()
            &&& team.score + deleted_count(p@, p@.len() as int) <= u32::MAX
        },
    ensures
        card is Some <==> prs is Some,
        card matches Some(e) ==> e@ == team_card(
            *team,
            rank_of(leaderboard@, team.slug@),
            team.users->0@,
            prs->0@,
        ),
{
    let users = match &team.users {
        Some(users) => users,
        None => {
            assert(false);
            return None;
        },
    };
    let user_text = user_list(users);
    let prs = match prs {
        Some(p) => p,
        None => return None,
    };
    let pull_req = pr_list(&prs);
    let deleted = count_deleted(&prs);
    let slugs = team_slugs(leaderboard);
    let board_len = leaderboard.len();
    let p = position_of(&slugs, &team.slug);
    let rank = p + 1;
    let total = team.score + deleted as u32;
    let mut data = String::from_str("`ℹ️` **Information**\n<:reply_multi:1029067132572549142>**Name:** ");
    data.append(team.name.as_str());
    data.append("\n<:reply_multi:1029067132572549142>**Rank:**`");
    push_decimal(&mut data, rank as u64);
    data.append("`\n<:reply_multi:1029067132572549142>**Score:** `");
    push_decimal(&mut data, team.score as u64);
    data.append("`\n<:reply_multi:1029067132572549142>**Total PRs:** `");
    push_decimal(&mut data, total as u64);
    data.append("`\n<:reply:1029065416905076808>**Total PRs Deleted:** `");
    push_decimal(&mut data, deleted as u64);
    data.append("`\n\n`🏆` **Team Members**\n");
    data.append(user_text.as_str());
    data.append("\n`🔗` **Last 3 PRs**\n");
    data.append(pull_req.as_str());
    assert(data@ =~= team_description(
        *team,
        rank_of(leaderboard@, team.slug@),
        team.users->0@,
        prs@,
    ));
    let mut e = Embed::blank();
    e.title = Some(String::from_str("HackSquad Team Information"));
    e.description = Some(data);
    e.color = Some(COLOUR_BLITZ_BLUE);
    e.thumbnail = Some(String::from_str(
        "https://cdn.discordapp.com/emojis/1026095278941552690.webp?size=128&quality=lossless",
    ));
    Some(e)
}

} // verus!
