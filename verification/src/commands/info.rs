//! The info command: API latency, start time and version of the bot.

use vstd::prelude::*;
use vstd::string::StringExecFns;

use crate::data::UptimeData;
use crate::embed::{blank_model, Embed, EmbedField, EmbedModel, COLOUR_MAGENTA};
use crate::commands::leaderboard::hacksquad_thumbnail;
use crate::text::{push_signed_decimal, signed_decimal};
use crate::utils::git::VersionInfo;

verus! {

/// The latency shown before it is measured.
pub open spec fn pinging_text() -> Seq<char> {
    "Pinging..."@
}

/// The latency label shown before it is measured.
pub fn pinging() -> (s: String)
    ensures
        s@ == pinging_text(),
{
    String::from_str("Pinging...")
}

/// The latency label "n ms".
pub fn latency_label(ms: i64) -> (s: String)
    ensures
        s@ == signed_decimal(ms as int) + " ms"@,
{
    let mut s = String::new();
    push_signed_decimal(&mut s, ms);
    s.append(" ms");
    assert(s@ =~= signed_decimal(ms as int) + " ms"@);
    s
}

/// The start time: a relative Discord timestamp, or "Not Availible".
pub open spec fn uptime_text(uptime: Option<UptimeData>) -> Seq<char> {
    match uptime {
        Some(u) => "<t:"@ + signed_decimal(u.started_unix as int) + ":R>"@,
        None => "Not Availible"@,
    }
}

/// The info card.
pub open spec fn info_model(latency: Seq<char>, uptime: Option<UptimeData>, version: VersionInfo) -> EmbedModel {
    EmbedModel {
        title: Some("HackSquad Bot"@),
        url: Some("https://github.com/HackSquadDev/discord-rust"@),
        fields: seq![
            ("API Ping (Discord)"@, "`"@ + latency + "`"@, false),
            ("Bot Started"@, uptime_text(uptime), false),
            ("Version"@, "`"@ + version.branch@ + "/"@ + version.revision@ + "`"@, false),
        ],
        color: Some(COLOUR_MAGENTA),
        thumbnail: Some(hacksquad_thumbnail()),
        footer_text: Some("Made with ??? by Midka, Nishant, Sloth816"@),
        ..blank_model()
    }
}

/// The info card showing `latency`, the start time and the version.
pub fn generate_embed(latency: &str, uptime: Option<&UptimeData>, version: &VersionInfo) -> (e:
    Embed)
    ensures
        e@ == info_model(
            latency@,
            match uptime {
                Some(u) => Some(*u),
                None => None,
            },
            *version,
        ),
{
    let mut ping = String::from_str("`");
    ping.append(latency);
    ping.append("`");
    let started = match uptime {
        Some(u) => {
            let mut s = String::from_str("<t:");
            push_signed_decimal(&mut s, u.started_unix);
            s.append(":R>");
            assert(s@ =~= "<t:"@ + signed_decimal(u.started_unix as int) + ":R>"@);
            s
        },
        None => String::from_str("Not Availible"),
    };
    let mut ver = String::from_str("`");
    let v = version.to_string();
    ver.append(v.as_str());
    ver.append("`");
    let mut fields: Vec<EmbedField> = Vec::new();
    fields.push(EmbedField::new(String::from_str("API Ping (Discord)"), ping, false));
    fields.push(EmbedField::new(String::from_str("Bot Started"), started, false));
    fields.push(EmbedField::new(String::from_str("Version"), ver, false));
    let mut e = Embed::blank();
    e.title = Some(String::from_str("HackSquad Bot"));
    e.url = Some(String::from_str("https://github.com/HackSquadDev/discord-rust"));
    e.fields = fields;
    e.color = Some(COLOUR_MAGENTA);
    e.thumbnail = Some(String::from_str(
        "https://cdn.discordapp.com/emojis/1026095278941552690.webp?size=128&quality=lossless",
    ));
    e.footer_text = Some(String::from_str("Made with ??? by Midka, Nishant, Sloth816"));
    let ghost up = match uptime {
        Some(u) => Some(*u),
        None => None,
    };
    assert(ver@ =~= "`"@ + version.branch@ + "/"@ + version.revision@ + "`"@);
    assert(started@ =~= uptime_text(up));
    assert(e@.fields =~= info_model(latency@, up, *version).fields);
    e
}

} // verus!
