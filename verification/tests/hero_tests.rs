use hacksquad::api::hero::{get_random_hero, Hero, Pulls};
use hacksquad::commands::hero::{hero_card, hero_not_found, hero_page, pull_lines, run};
use hacksquad::embed::COLOUR_BLITZ_BLUE;

fn hero(github: &str) -> Hero {
    Hero {
        name: None,
        avatar_url: format!("https://avatars/{}", github),
        bio: None,
        location: None,
        github: github.to_string(),
        devto: None,
        linkedin: None,
        twitter: None,
        discord: None,
        activities_count: None,
        activities_score: None,
        total_pulls: None,
        last_activity_occurred_at: None,
        pulls: vec![],
    }
}

#[test]
fn missing_pulls_read_not_available() {
    let pulls = vec![Pulls { url: "u".to_string(), title: "T".to_string() }];
    assert_eq!(
        pull_lines(&pulls),
        "<:reply_multi:1029067132572549142>[T](u)\n<:reply_multi:1029067132572549142>Not Available\n<:reply:1029065416905076808>Not Available\n"
    );
    let pulls = vec![
        Pulls { url: "u1".to_string(), title: "".to_string() },
        Pulls { url: "u2".to_string(), title: "B".to_string() },
        Pulls { url: "u3".to_string(), title: "C".to_string() },
        Pulls { url: "u4".to_string(), title: "D".to_string() },
    ];
    assert_eq!(
        pull_lines(&pulls),
        "<:reply_multi:1029067132572549142>Not Available\n<:reply_multi:1029067132572549142>[B](u2)\n<:reply:1029065416905076808>[C](u3)\n"
    );
}

#[test]
fn bare_hero_card() {
    let e = hero_card(&hero("octo"), None);
    assert_eq!(e.title.as_deref(), Some("Novu Hero Information"));
    assert_eq!(e.color, Some(COLOUR_BLITZ_BLUE));
    assert_eq!(e.thumbnail.as_deref(), Some("https://avatars/octo"));
    assert_eq!(e.image.as_deref(), Some("https://contributors.novu.co/profiles/octo-small.jpg"));
    assert_eq!(e.footer_text.as_deref(), Some("Novu"));
    assert_eq!(e.footer_icon.as_deref(), Some("https://novu.co/favicon-32x32.png"));
    assert!(e.stamped);
    assert_eq!(
        e.description.as_deref(),
        Some("__ \n\n `ℹ️` **Information**\n<:reply_multi:1029067132572549142>**Name:** `Unknown`\n<:reply_multi:1029067132572549142>**Location:** `Unknown`\n<:reply_multi:1029067132572549142>**Total PRs:** `Not Available`\n<:reply:1029065416905076808>**Last Activity:** Not Available\n\n`📙` **Socials**\n<:gh:1029368861776167004> **GitHub:** https://github.com/octo\n<:lkdn:1029410421641326755> **LinkedIn:** Not Linked\n<:twitter:1029410910432935936> **Twitter:** Not Linked\n<:discord:1029412089170767922> **Discord:** Not Linked\n\n`🔗` **Last 3 PRs**\n<:reply_multi:1029067132572549142>Not Available\n<:reply_multi:1029067132572549142>Not Available\n<:reply:1029065416905076808>Not Available\n")
    );
}

#[test]
fn full_hero_card_reads_timestamp() {
    let mut h = hero("octo");
    h.name = Some("Octo Cat".to_string());
    h.bio = Some("hi".to_string());
    h.location = Some("Sea".to_string());
    h.total_pulls = Some(12);
    h.twitter = Some("octo_t".to_string());
    h.linkedin = Some("https://linkedin/octo".to_string());
    h.discord = Some("octo#1".to_string());
    h.last_activity_occurred_at = Some("2016-04-30T11:18:25Z".to_string());
    let e = run(&h).unwrap();
    let d = e.description.unwrap();
    assert!(d.starts_with("_hi_ \n\n `ℹ️` **Information**\n<:reply_multi:1029067132572549142>**Name:** `Octo Cat`\n"));
    assert!(d.contains("**Location:** `Sea`"));
    assert!(d.contains("**Total PRs:** `12`"));
    assert!(d.contains("**Last Activity:** <t:1462015105:F>\n"));
    assert!(d.contains("**Twitter:** https://twitter.com/octo_t\n"));
    assert!(d.contains("**LinkedIn:** https://linkedin/octo\n"));
    assert!(d.contains("**Discord:** octo#1\n"));
}

#[test]
fn malformed_timestamp_gives_no_card() {
    let mut h = hero("octo");
    h.last_activity_occurred_at = Some("yesterday".to_string());
    assert!(run(&h).is_none());
}

#[test]
fn hero_not_found_card() {
    let e = hero_not_found("Random");
    assert_eq!(e.description.as_deref(), Some("```Hero not found :(```"));
    assert_eq!(e.fields[0].name, "Github ID/Username");
    assert_eq!(e.fields[0].value, "Random");
    assert_eq!(hero_page("octo"), "https://github.com/octo");
}

#[test]
fn random_hero_is_one_of_the_list() {
    let names = ["a", "b", "c"];
    for _ in 0..20 {
        let h = get_random_hero(names.iter().map(|n| hero(n)).collect());
        assert!(names.contains(&h.github.as_str()));
    }
    assert_eq!(get_random_hero(vec![hero("solo")]).github, "solo");
}

#[test]
fn positions_are_all_indices() {
    assert_eq!(hacksquad::api::hero::all_positions(4), vec![0, 1, 2, 3]);
    assert!(hacksquad::api::hero::all_positions(0).is_empty());
}
