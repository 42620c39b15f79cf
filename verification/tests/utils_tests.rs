use hacksquad::embed::EmbedField;
use hacksquad::utils::calculate_latency::{calculate_latency, Moment};
use hacksquad::utils::embeds::error_embed;
use hacksquad::utils::git::{show_branch, HeadLookup, VersionInfo};

#[test]
fn latency_in_milliseconds() {
    let start = Moment { unix_timestamp: 100, millisecond: 900 };
    let end = Moment { unix_timestamp: 102, millisecond: 50 };
    assert_eq!(calculate_latency(start, end), 1150);
    let same = Moment { unix_timestamp: 5, millisecond: 5 };
    assert_eq!(calculate_latency(Moment { unix_timestamp: 5, millisecond: 5 }, same), 0);
}

#[test]
fn version_text() {
    let v = VersionInfo { branch: "main".to_string(), revision: "0a1b2c3".to_string() };
    assert_eq!(v.to_string(), "main/0a1b2c3");
    assert_eq!(show_branch(HeadLookup::Named("main".to_string())), "main");
    assert_eq!(show_branch(HeadLookup::Failed("Error { code: -3 }".to_string())), "An error occured: Error { code: -3 }");
}

#[test]
fn error_card() {
    let e = error_embed("boom", vec![EmbedField::new("k".to_string(), "v".to_string(), true)]);
    assert_eq!(e.title.as_deref(), Some("Oh no! An error occurred..."));
    assert_eq!(e.description.as_deref(), Some("```boom```"));
    assert_eq!(e.fields.len(), 1);
    assert_eq!(e.fields[0].name, "k");
    assert!(e.fields[0].inline);
}
