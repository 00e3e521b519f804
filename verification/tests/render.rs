use haru::lang::resolve;
use haru::render::{compose_count, compose_summon, compose_visit, feed, pat, screen, status, summon};
use haru::state::{Action, State};

#[test]
fn pat_line_pluralizes_in_english() {
    let lang = resolve(Some("en"), None, None).unwrap();
    let one = State {
        pats_today: 1,
        ..State::default()
    };
    assert!(pat(&lang, &one).contains("1 time today"));
    let two = State {
        pats_today: 2,
        ..State::default()
    };
    assert!(pat(&lang, &two).contains("2 times today"));
}

#[test]
fn status_fills_english_template() {
    let lang = resolve(Some("en"), None, None).unwrap();
    let s = State {
        last_seen: "2026-07-06".into(),
        pats_today: 5,
        feeds_today: 1,
        total_pats: 42,
        total_feeds: 9,
    };
    let out = status(&lang, &s);
    assert!(out.contains("mood: purring"));
    assert!(out.contains("pats today: 5"));
    assert!(out.contains("last seen: 2026-07-06"));
}

#[test]
fn status_fills_chinese_template() {
    let lang = resolve(Some("zh"), None, None).unwrap();
    let s = State {
        last_seen: "2026-07-06".into(),
        pats_today: 5,
        feeds_today: 1,
        total_pats: 42,
        total_feeds: 9,
    };
    let out = status(&lang, &s);
    assert!(out.contains("Haru 状态"));
    assert!(out.contains("心情：呼噜噜"));
    assert!(!out.contains('{'), "unfilled placeholder left in: {out}");
}

#[test]
fn status_says_never_before_the_first_visit() {
    let lang = resolve(Some("en"), None, None).unwrap();
    let out = status(&lang, &State::default());
    assert!(out.contains("last seen: never"));
    assert!(out.contains("mood: waiting"));
    assert!(out.contains("total feeds: 0"));
}

#[test]
fn status_fills_every_language_completely() {
    for code in ["en", "zh", "ja"] {
        let lang = resolve(Some(code), None, None).unwrap();
        let s = State {
            last_seen: "2026-01-02".into(),
            pats_today: 12,
            feeds_today: 0,
            total_pats: 1234567890123,
            total_feeds: u64::MAX,
        };
        let out = status(&lang, &s);
        assert!(!out.contains('{'), "{code}: {out}");
        assert!(out.contains("1234567890123"));
        assert!(out.contains("18446744073709551615"));
        assert!(out.contains(&lang.messages.mood_spoiled));
    }
}

#[test]
fn feed_line_pluralizes_in_english() {
    let lang = resolve(Some("en"), None, None).unwrap();
    let one = State {
        feeds_today: 1,
        ..State::default()
    };
    assert!(feed(&lang, &one).contains("you fed Haru 1 time today."));
    let many = State {
        feeds_today: 30,
        ..State::default()
    };
    assert!(feed(&lang, &many).contains("you fed Haru 30 times today."));
}

#[test]
fn summon_has_sound_cat_and_tip() {
    let lang = resolve(Some("en"), None, None).unwrap();
    let out = summon(&lang);
    let parts: Vec<&str> = out.split("\n\n").collect();
    assert_eq!(parts.len(), 3);
    assert!(parts[2].starts_with("tip: "));
    assert!(!out.contains("{tip}"));
}

#[test]
fn compose_summon_layout() {
    let lang = resolve(Some("en"), None, None).unwrap();
    let out = compose_summon(&lang.messages, "meow.", "CAT", "rest.");
    assert_eq!(out, "meow.\n\nCAT\n\ntip: rest.");
}

#[test]
fn compose_count_fills_number_then_unit() {
    let lang = resolve(Some("en"), None, None).unwrap();
    assert_eq!(compose_count(&lang.messages, "{n} {unit}, {n}!", 1), "1 time, 1!");
    assert_eq!(compose_count(&lang.messages, "{n} {unit}", 0), "0 times");
    assert_eq!(compose_count(&lang.messages, "none here", 7), "none here");
}

#[test]
fn compose_visit_layout() {
    assert_eq!(compose_visit("purr.", "CAT", "flavor", "count"), "purr.\n\nCAT\n\nflavor\ncount");
}

#[test]
fn pat_screen_layout() {
    let lang = resolve(Some("en"), None, None).unwrap();
    let s = State {
        pats_today: 3,
        ..State::default()
    };
    let out = pat(&lang, &s);
    let lines: Vec<&str> = out.lines().collect();
    assert_eq!(lines.last().copied(), Some("you patted Haru 3 times today."));
    assert!(lang.pat_flavors.iter().any(|f| lines[lines.len() - 2] == f));
}

#[test]
fn screen_follows_the_action() {
    let lang = resolve(Some("en"), None, None).unwrap();
    let s = State {
        last_seen: "2026-07-06".into(),
        pats_today: 2,
        feeds_today: 1,
        total_pats: 4,
        total_feeds: 3,
    };
    assert_eq!(screen(&lang, &s, Action::Status), status(&lang, &s));
    assert!(screen(&lang, &s, Action::Pat).ends_with("you patted Haru 2 times today."));
    assert!(screen(&lang, &s, Action::Feed).ends_with("you fed Haru 1 time today."));
    assert!(screen(&lang, &s, Action::Summon).contains("\n\ntip: "));
}
