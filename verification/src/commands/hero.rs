//! The hero commands: a Novu contributor's profile card.

use vstd::prelude::*;
use vstd::string::StringExecFns;

use crate::api::hero::{Hero, Pulls};
use crate::commands::team::{reply_last, reply_more};
use crate::embed::{blank_model, Embed, EmbedField, EmbedModel, COLOUR_BLITZ_BLUE};
use crate::text::{decimal, push_decimal, push_signed_decimal, signed_decimal};
use crate::utils::embeds::{error_embed, error_model};

verus! {

/// The text of an optional string, or `default` when it is absent.
pub open spec fn text_or(o: Option<String>, default: Seq<char>) -> Seq<char> {
    match o {
        Some(s) => s@,
        None => default,
    }
}

/// The line of the pull request with `title` and `url` at position `index`
/// (the third closes the list); an empty title reads "Not Available".
pub open spec fn pull_line(title: Seq<char>, url: Seq<char>, index: int) -> Seq<char> {
    (if index == 2 {
        reply_last()
    } else {
        reply_more()
    }) + (if title.len() == 0 {
        "Not Available\n"@
    } else {
        "["@ + title + "]("@ + url + ")\n"@
    })
}

/// The line at position `index` of the hero's pull requests, missing ones
/// counting as empty.
pub open spec fn hero_pull_line(pulls: Seq<Pulls>, index: int) -> Seq<char> {
    if index < pulls.len() {
        pull_line(pulls[index].title@, pulls[index].url@, index)
    } else {
        pull_line(Seq::empty(), Seq::empty(), index)
    }
}

/// The lines of the first three pull requests.
pub open spec fn hero_pull_lines(pulls: Seq<Pulls>) -> Seq<char> {
    hero_pull_line(pulls, 0) + hero_pull_line(pulls, 1) + hero_pull_line(pulls, 2)
}

/// The text of the last activity: a Discord timestamp, or "Not Available".
pub open spec fn activity_text(unix: Option<i64>) -> Seq<char> {
    match unix {
        Some(t) => "<t:"@ + signed_decimal(t as int) + ":F>"@,
        None => "Not Available"@,
    }
}

/// The part of the hero card's description before the pull request lines:
/// bio, information, socials and the heading of the pull requests;
/// `last_activity_unix` is the hero's last activity as a Unix timestamp.
#[verifier::opaque]
pub open spec fn hero_details(hero: Hero, last_activity_unix: Option<i64>) -> Seq<char> {
    "_"@ + text_or(hero.bio, Seq::empty()) + "_ \n\n"@
        + " `ℹ️` **Information**\n<:reply_multi:1029067132572549142>**Name:** `"@ + text_or(
        hero.name,
        "Unknown"@,
    ) + "`\n<:reply_multi:1029067132572549142>**Location:** `"@ + text_or(
        hero.location,
        "Unknown"@,
    ) + "`\n<:reply_multi:1029067132572549142>**Total PRs:** `"@ + (match hero.total_pulls {
        Some(n) => decimal(n as nat),
        None => "Not Available"@,
    }) + "`\n<:reply:1029065416905076808>**Last Activity:** "@ + activity_text(last_activity_unix)
        + "\n\n`📙` **Socials**\n<:gh:1029368861776167004> **GitHub:** https://github.com/"@
        + hero.github@ + "\n<:lkdn:1029410421641326755> **LinkedIn:** "@ + text_or(
        hero.linkedin,
        "Not Linked"@,
    ) + "\n<:twitter:1029410910432935936> **Twitter:** "@ + (match hero.twitter {
        Some(h) => "https://twitter.com/"@ + h@,
        None => "Not Linked"@,
    }) + "\n<:discord:1029412089170767922> **Discord:** "@ + text_or(hero.discord, "Not Linked"@)
        + "\n\n`🔗` **Last 3 PRs**\n"@
}

/// The description of the hero card: the details, then the lines of the
/// hero's first three pull requests.
pub open spec fn hero_description(hero: Hero, last_activity_unix: Option<i64>) -> Seq<char> {
    hero_details(hero, last_activity_unix) + hero_pull_lines(hero.pulls@)
}

/// The hero card.
pub open spec fn hero_card_model(hero: Hero, last_activity_unix: Option<i64>) -> EmbedModel {
    EmbedModel {
        title: Some("Novu Hero Information"@),
        description: Some(hero_description(hero, last_activity_unix)),
        color: Some(COLOUR_BLITZ_BLUE),
        thumbnail: Some(hero.avatar_url@),
        image: Some("https://contributors.novu.co/profiles/"@ + hero.github@ + "-small.jpg"@),
        footer_text: Some("Novu"@),
        footer_icon: Some("https://novu.co/favicon-32x32.png"@),
        stamped: true,
        ..blank_model()
    }
}

/// What `serenity::model::Timestamp::parse` followed by `unix_timestamp`
/// gives for an RFC 3339 date and time: the Unix timestamp, or None when the
/// text is not one.
pub uninterp spec fn rfc3339_unix(text: Seq<char>) -> Option<i64>;

/// `serenity::model::Timestamp::parse` then `Timestamp::unix_timestamp`: the
/// Unix timestamp of an RFC 3339 date and time, None when `text` does not
/// parse. Only that the result is the named function of the text is claimed.
#[verifier::external_body]
fn parse_activity_time(text: &str) -> (r: Option<i64>)
    ensures
        r == rfc3339_unix(text@),
{
    match serenity::model::Timestamp::parse(text) {
        Ok(t) => Some(t.unix_timestamp()),
        Err(_) => None,
    }
}

fn append_or(out: &mut String, o: &Option<String>, default: &str)
    ensures
        final(out)@ == old(out)@ + text_or(*o, default@),
{
    match o {
        Some(s) => out.append(s.as_str()),
        None => out.append(default),
    }
}

fn push_pull_line(out: &mut String, pulls: &Vec<Pulls>, index: usize)
    requires
        index < 3,
    ensures
        final(out)@ == old(out)@ + hero_pull_line(pulls@, index as int),
{
    if index == 2 {
        out.append("<:reply:1029065416905076808>");
    } else {
        out.append("<:reply_multi:1029067132572549142>");
    }
    if index < pulls.len() && pulls[index].title.as_str().unicode_len() != 0 {
        out.append("[");
        out.append(pulls[index].title.as_str());
        out.append("](");
        out.append(pulls[index].url.as_str());
        out.append(")\n");
    } else {
        out.append("Not Available\n");
    }
    proof {
        if index < pulls@.len() {
            assert(final(out)@ =~= old(out)@ + pull_line(
                pulls@[index as int].title@,
                pulls@[index as int].url@,
                index as int,
            ));
        } else {
            assert(final(out)@ =~= old(out)@ + pull_line(Seq::empty(), Seq::empty(), index as int));
        }
    }
}

/// The lines of the hero's first three pull requests.
pub fn pull_lines(pulls: &Vec<Pulls>) -> (s: String)
    ensures
        s@ == hero_pull_lines(pulls@),
{
    let mut s = String::new();
    push_pull_line(&mut s, pulls, 0);
    push_pull_line(&mut s, pulls, 1);
    push_pull_line(&mut s, pulls, 2);
    assert(s@ =~= hero_pull_lines(pulls@));
    s
}

/// The hero card lists the hero's own pull requests: each of the first three
/// that has a title `T` and a url `U` appears on its line of the description
/// as the link "[T](U)", after the reply emoji (the third line's closes the
/// list).
pub proof fn lemma_card_lists_pulls(hero: Hero, last_activity_unix: Option<i64>, k: int)
    requires
        0 <= k < 3,
        k < hero.pulls@.len(),
        hero.pulls@[k].title@.len() > 0,
    ensures
        ({
            let d = hero_card_model(hero, last_activity_unix).description->0;
            let line = (if k == 2 {
                reply_last()
            } else {
                reply_more()
            }) + "["@ + hero.pulls@[k].title@ + "]("@ + hero.pulls@[k].url@ + ")\n"@;
            exists|start: int|
                0 <= start <= d.len() && line.is_prefix_of(#[trigger] d.subrange(start, d.len() as int))
        }),
{
    let x = hero_details(hero, last_activity_unix);
    let l0 = hero_pull_line(hero.pulls@, 0);
    let l1 = hero_pull_line(hero.pulls@, 1);
    let l2 = hero_pull_line(hero.pulls@, 2);
    let line = hero_pull_line(hero.pulls@, k);
    let link = (if k == 2 {
        reply_last()
    } else {
        reply_more()
    }) + "["@ + hero.pulls@[k].title@ + "]("@ + hero.pulls@[k].url@ + ")\n"@;
    assert(line == link);
    let d = hero_card_model(hero, last_activity_unix).description->0;
    assert(d == x + (l0 + l1 + l2));
    lemma_line_follows(x, l0, l1, l2, k);
    assert(line == if k == 0 {
        l0
    } else if k == 1 {
        l1
    } else {
        l2
    });
    let start = choose|start: int|
        0 <= start <= d.len() && line.is_prefix_of(#[trigger] d.subrange(start, d.len() as int));
    assert(link.is_prefix_of(d.subrange(start, d.len() as int)));
}

/// In `x` followed by three lines, line `k` starts at some position.
proof fn lemma_line_follows(x: Seq<char>, l0: Seq<char>, l1: Seq<char>, l2: Seq<char>, k: int)
    requires
        0 <= k < 3,
    ensures
        ({
            let d = x + (l0 + l1 + l2);
            let line = if k == 0 {
                l0
            } else if k == 1 {
                l1
            } else {
                l2
            };
            exists|start: int|
                0 <= start <= d.len() && line.is_prefix_of(#[trigger] d.subrange(start, d.len() as int))
        }),
{
    let d = x + (l0 + l1 + l2);
    let line = if k == 0 {
        l0
    } else if k == 1 {
        l1
    } else {
        l2
    };
    let start = if k == 0 {
        x.len() as int
    } else if k == 1 {
        (x.len() + l0.len()) as int
    } else {
        (x.len() + l0.len() + l1.len()) as int
    };
    assert(d.subrange(start, d.len() as int).subrange(0, line.len() as int) =~= line);
    assert(line.is_prefix_of(d.subrange(start, d.len() as int)));
}

/// The hero card of `hero`, whose last activity is `last_activity_unix`.
pub fn hero_card(hero: &Hero, last_activity_unix: Option<i64>) -> (e: Embed)
    ensures
        e@ == hero_card_model(*hero, last_activity_unix),
{
    let mut d = String::from_str("_");
    append_or(&mut d, &hero.bio, "");
    d.append("_ \n\n");
    d.append(" `ℹ️` **Information**\n<:reply_multi:1029067132572549142>**Name:** `");
    append_or(&mut d, &hero.name, "Unknown");
    d.append("`\n<:reply_multi:1029067132572549142>**Location:** `");
    append_or(&mut d, &hero.location, "Unknown");
    d.append("`\n<:reply_multi:1029067132572549142>**Total PRs:** `");
    match hero.total_pulls {
        Some(n) => push_decimal(&mut d, n as u64),
        None => d.append("Not Available"),
    }
    d.append("`\n<:reply:1029065416905076808>**Last Activity:** ");
    match last_activity_unix {
        Some(t) => {
            d.append("<t:");
            push_signed_decimal(&mut d, t);
            d.append(":F>");
        },
        None => d.append("Not Available"),
    }
    d.append("\n\n`📙` **Socials**\n<:gh:1029368861776167004> **GitHub:** https://github.com/");
    d.append(hero.github.as_str());
    d.append("\n<:lkdn:1029410421641326755> **LinkedIn:** ");
    append_or(&mut d, &hero.linkedin, "Not Linked");
    d.append("\n<:twitter:1029410910432935936> **Twitter:** ");
    match &hero.twitter {
        Some(h) => {
            d.append("https://twitter.com/");
            d.append(h.as_str());
        },
        None => d.append("Not Linked"),
    }
    d.append("\n<:discord:1029412089170767922> **Discord:** ");
    append_or(&mut d, &hero.discord, "Not Linked");
    d.append("\n\n`🔗` **Last 3 PRs**\n");
    let lines = pull_lines(&hero.pulls);
    d.append(lines.as_str());
    proof {
        reveal_strlit("");
        assert(""@ =~= Seq::<char>::empty());
        reveal(hero_details);
    }
    assert(d@ =~= hero_description(*hero, last_activity_unix));
    let mut image = String::from_str("https://contributors.novu.co/profiles/");
    image.append(hero.github.as_str());
    image.append("-small.jpg");
    let mut e = Embed::blank();
    e.title = Some(String::from_str("Novu Hero Information"));
    e.description = Some(d);
    e.color = Some(COLOUR_BLITZ_BLUE);
    e.thumbnail = Some(hero.avatar_url.clone());
    e.image = Some(image);
    e.footer_text = Some(String::from_str("Novu"));
    e.footer_icon = Some(String::from_str("https://novu.co/favicon-32x32.png"));
    e.stamped = true;
    e
}

/// The hero card of `hero`, its last activity read as an RFC 3339 date and
/// time; None when that text does not parse.
pub fn run(hero: &Hero) -> (e: Option<Embed>)
    ensures
        e is None <==> (hero.last_activity_occurred_at matches Some(t) && rfc3339_unix(t@) is None),
        e matches Some(card) ==> card@ == hero_card_model(
            *hero,
            match hero.last_activity_occurred_at {
                Some(t) => rfc3339_unix(t@),
                None => None,
            },
        ),
{
    let unix = match &hero.last_activity_occurred_at {
        Some(t) => match parse_activity_time(t.as_str()) {
            Some(u) => Some(u),
            None => return None,
        },
        None => None,
    };
    Some(hero_card(hero, unix))
}

/// The card shown when no hero matches `github_id`.
pub fn hero_not_found(github_id: &str) -> (e: Embed)
    ensures
        e@ == error_model("Hero not found :("@, seq![("Github ID/Username"@, github_id@, false)]),
{
    let mut fields: Vec<EmbedField> = Vec::new();
    fields.push(EmbedField::new(String::from_str("Github ID/Username"), github_id.to_owned(), false));
    assert(fields@.map_values(|f: EmbedField| f@) =~= seq![
        ("Github ID/Username"@, github_id@, false),
    ]);
    error_embed("Hero not found :(", fields)
}

/// The hero's GitHub page, for the card's link button.
pub fn hero_page(github: &str) -> (s: String)
    ensures
        s@ == "https://github.com/"@ + github@,
{
    let mut s = String::from_str("https://github.com/");
    s.append(github);
    s
}

} // verus!
