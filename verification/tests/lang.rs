use haru::lang::{
    messages_from_fields, pack_for, parse_lines, parse_messages, pick, primary_subtag, resolve,
    resolve_code, Messages,
};
use haru::packs::packs;
use haru::state::Mood;

#[test]
fn all_packs_parse_and_have_content() {
    for p in packs() {
        assert!(parse_messages(p.messages).is_some(), "{} messages invalid", p.code);
        assert!(!parse_lines(p.tips).is_empty(), "{} has no tips", p.code);
        assert!(!parse_lines(p.pat).is_empty(), "{} has no pat flavors", p.code);
        assert!(!parse_lines(p.feed).is_empty(), "{} has no feed flavors", p.code);
    }
}

#[test]
fn messages_have_required_placeholders() {
    for p in packs() {
        let m: Messages = parse_messages(p.messages).unwrap();
        assert!(m.tip_line.contains("{tip}"), "{}: tip_line", p.code);
        assert!(m.patted.contains("{n}") && m.patted.contains("{unit}"), "{}: patted", p.code);
        assert!(m.fed.contains("{n}") && m.fed.contains("{unit}"), "{}: fed", p.code);
        for token in ["{mood}", "{pats}", "{feeds}", "{total_pats}", "{total_feeds}", "{last_seen}"] {
            assert!(m.status.contains(token), "{}: status missing {token}", p.code);
        }
    }
}

#[test]
fn primary_subtag_normalizes() {
    assert_eq!(primary_subtag("zh-CN"), "zh");
    assert_eq!(primary_subtag("zh_CN.UTF-8"), "zh");
    assert_eq!(primary_subtag("EN"), "en");
}

#[test]
fn primary_subtag_edges() {
    assert_eq!(primary_subtag(""), "");
    assert_eq!(primary_subtag("-CN"), "");
    assert_eq!(primary_subtag("JA.utf8"), "ja");
    assert_eq!(primary_subtag("Zh-Hant-TW"), "zh");
    assert_eq!(primary_subtag("de"), "de");
}

#[test]
fn explicit_override_selects_language() {
    assert_eq!(resolve(Some("zh"), None, None).unwrap().messages.mood_happy, "开心");
    assert_eq!(resolve(Some("en"), None, None).unwrap().messages.mood_happy, "happy");
    assert_eq!(resolve(Some("ja"), None, None).unwrap().messages.mood_happy, "ごきげん");
}

#[test]
fn unknown_code_falls_back_to_default() {
    // An unknown code resolves to the default (English) pack.
    assert_eq!(resolve(Some("xx"), None, None).unwrap().messages.mood_happy, "happy");
}

#[test]
fn override_wins_over_setting_and_locale() {
    assert_eq!(resolve_code(Some("ja_JP"), Some("zh"), Some("en-US")), "ja");
    assert_eq!(resolve(Some("zh"), Some("en"), Some("ja")).unwrap().messages.mood_happy, "开心");
}

#[test]
fn setting_wins_over_locale_unless_blank() {
    assert_eq!(resolve_code(None, Some("ZH-tw"), Some("ja-JP")), "zh");
    assert_eq!(resolve_code(None, Some("  \t"), Some("ja-JP")), "ja");
    assert_eq!(resolve_code(None, Some(""), Some("ja-JP")), "ja");
    assert_eq!(resolve_code(None, None, Some("fr_FR.UTF-8")), "fr");
    assert_eq!(resolve_code(None, None, None), "en");
}

#[test]
fn pack_for_finds_each_code() {
    assert_eq!(pack_for("en").code, "en");
    assert_eq!(pack_for("zh").code, "zh");
    assert_eq!(pack_for("ja").code, "ja");
    assert_eq!(pack_for("fr").code, "en");
    assert_eq!(pack_for("").code, "en");
    assert_eq!(pack_for("zh-CN").code, "en");
}

#[test]
fn parse_lines_keeps_content_lines_only() {
    let raw = "# comment\n  first  \n\n\tsecond\r\n   # also a comment\nthird";
    assert_eq!(parse_lines(raw), vec!["first".to_string(), "second".to_string(), "third".to_string()]);
    assert!(parse_lines("").is_empty());
    assert!(parse_lines("\n\n  \n# x\n").is_empty());
    assert_eq!(parse_lines("a#b\n"), vec!["a#b".to_string()]);
}

#[test]
fn parse_lines_agrees_with_std_lines() {
    let samples = [
        "a\nb\nc",
        "a\r\nb\r\n",
        "\u{3000}全角\u{3000}\n# x\n y ",
        "\n\n#\n##\n # \n z",
        "one line",
    ];
    for raw in samples {
        let expected: Vec<String> = raw
            .lines()
            .map(str::trim)
            .filter(|line| !line.is_empty() && !line.starts_with('#'))
            .map(String::from)
            .collect();
        assert_eq!(parse_lines(raw), expected, "{raw:?}");
    }
}

#[test]
fn parse_messages_refuses_bad_text() {
    assert!(parse_messages("not json").is_none());
    assert!(parse_messages("{\"tip_line\": \"tip: {tip}\"}").is_none());
    assert!(parse_messages("[1, 2]").is_none());
}

#[test]
fn parse_messages_reads_every_field() {
    let text = "{\"tip_line\":\"t\",\"unit_one\":\"u1\",\"unit_other\":\"u2\",\"patted\":\"p\",\
                \"fed\":\"f\",\"status\":\"s\",\"never\":\"n\",\"mood_waiting\":\"w\",\
                \"mood_happy\":\"h\",\"mood_purring\":\"pu\",\"mood_spoiled\":\"sp\",\"extra\":3}";
    let m = parse_messages(text).unwrap();
    assert_eq!(m.tip_line, "t");
    assert_eq!(m.unit_one, "u1");
    assert_eq!(m.unit_other, "u2");
    assert_eq!(m.patted, "p");
    assert_eq!(m.fed, "f");
    assert_eq!(m.status, "s");
    assert_eq!(m.never, "n");
    assert_eq!(m.mood(Mood::Waiting), "w");
    assert_eq!(m.mood(Mood::Happy), "h");
    assert_eq!(m.mood(Mood::Purring), "pu");
    assert_eq!(m.mood(Mood::Spoiled), "sp");
    assert_eq!(m.unit(1), "u1");
    assert_eq!(m.unit(0), "u2");
    assert_eq!(m.unit(2), "u2");
}

#[test]
fn parse_messages_refuses_a_non_string_field() {
    let text = "{\"tip_line\":\"t\",\"unit_one\":1,\"unit_other\":\"u2\",\"patted\":\"p\",\
                \"fed\":\"f\",\"status\":\"s\",\"never\":\"n\",\"mood_waiting\":\"w\",\
                \"mood_happy\":\"h\",\"mood_purring\":\"pu\",\"mood_spoiled\":\"sp\"}";
    assert!(parse_messages(text).is_none());
}

#[test]
fn messages_need_every_field() {
    let s = |x: &str| Some(x.to_string());
    assert!(messages_from_fields(
        s("a"), s("b"), s("c"), s("d"), s("e"), s("f"), s("g"), s("h"), s("i"), s("j"), s("k")
    )
    .is_some());
    assert!(messages_from_fields(
        s("a"), s("b"), s("c"), s("d"), s("e"), s("f"), s("g"), s("h"), s("i"), s("j"), None
    )
    .is_none());
    assert!(messages_from_fields(
        None, s("b"), s("c"), s("d"), s("e"), s("f"), s("g"), s("h"), s("i"), s("j"), s("k")
    )
    .is_none());
}

#[test]
fn pick_from_an_empty_pool_meows() {
    assert_eq!(pick(&Vec::new()), "meow.");
    let one = vec!["only".to_string()];
    assert_eq!(pick(&one), "only");
}

#[test]
fn random_lines_come_from_the_pools() {
    let lang = resolve(Some("en"), None, None).unwrap();
    for _ in 0..30 {
        assert!(lang.tips.contains(&lang.random_tip()));
        assert!(lang.pat_flavors.contains(&lang.random_pat_flavor()));
        assert!(lang.feed_flavors.contains(&lang.random_feed_flavor()));
    }
}

#[test]
fn codes_select_their_language_in_any_letter_case() {
    assert_eq!(resolve(Some("ZH"), None, None).unwrap().messages.mood_happy, "开心");
    assert_eq!(resolve(None, Some("Ja_JP"), None).unwrap().messages.mood_happy, "ごきげん");
    assert_eq!(resolve(None, None, Some("EN-gb")).unwrap().messages.mood_happy, "happy");
}

#[test]
fn every_language_has_lines_in_each_pool() {
    for code in ["en", "zh", "ja"] {
        let lang = resolve(Some(code), None, None).unwrap();
        assert!(!lang.tips.is_empty() && !lang.pat_flavors.is_empty() && !lang.feed_flavors.is_empty());
        assert!(lang.tips.iter().all(|t| !t.starts_with('#')));
    }
}
