use hacksquad::commands::info::{generate_embed, latency_label, pinging};
use hacksquad::data::UptimeData;
use hacksquad::embed::COLOUR_MAGENTA;
use hacksquad::utils::git::VersionInfo;

#[test]
fn info_card() {
    let v = VersionInfo { branch: "main".to_string(), revision: "abc1234".to_string() };
    let up = UptimeData { started_unix: 1700000000 };
    let e = generate_embed(&latency_label(87), Some(&up), &v);
    assert_eq!(e.title.as_deref(), Some("HackSquad Bot"));
    assert_eq!(e.url.as_deref(), Some("https://github.com/HackSquadDev/discord-rust"));
    assert_eq!(e.color, Some(COLOUR_MAGENTA));
    assert_eq!(e.fields.len(), 3);
    assert_eq!(e.fields[0].name, "API Ping (Discord)");
    assert_eq!(e.fields[0].value, "`87 ms`");
    assert_eq!(e.fields[1].name, "Bot Started");
    assert_eq!(e.fields[1].value, "<t:1700000000:R>");
    assert_eq!(e.fields[2].name, "Version");
    assert_eq!(e.fields[2].value, "`main/abc1234`");
    assert_eq!(e.footer_text.as_deref(), Some("Made with ??? by Midka, Nishant, Sloth816"));
}

#[test]
fn info_card_without_uptime() {
    let v = VersionInfo { branch: "dev".to_string(), revision: "1".to_string() };
    let e = generate_embed(&pinging(), None, &v);
    assert_eq!(e.fields[0].value, "`Pinging...`");
    assert_eq!(e.fields[1].value, "Not Availible");
    assert_eq!(latency_label(-3), "-3 ms");
}
