use haru::state::{Action, Mood, State};

#[test]
fn same_day_keeps_today_counts() {
    let s = State {
        last_seen: "2026-07-06".into(),
        pats_today: 2,
        feeds_today: 1,
        total_pats: 5,
        total_feeds: 3,
    };
    let n = s.advance("2026-07-06", Action::Pat);
    assert_eq!(n.pats_today, 3);
    assert_eq!(n.total_pats, 6);
    assert_eq!(n.feeds_today, 1);
}

#[test]
fn new_day_resets_today_but_keeps_totals() {
    let s = State {
        last_seen: "2026-07-05".into(),
        pats_today: 9,
        feeds_today: 4,
        total_pats: 20,
        total_feeds: 10,
    };
    let n = s.advance("2026-07-06", Action::Pat);
    assert_eq!(n.pats_today, 1);
    assert_eq!(n.feeds_today, 0);
    assert_eq!(n.total_pats, 21);
    assert_eq!(n.total_feeds, 10);
    assert_eq!(n.last_seen, "2026-07-06");
}

#[test]
fn summon_and_status_do_not_increment() {
    let s = State {
        last_seen: "2026-07-06".into(),
        pats_today: 2,
        feeds_today: 1,
        total_pats: 5,
        total_feeds: 3,
    };
    assert_eq!(s.advance("2026-07-06", Action::Summon), s);
    assert_eq!(s.advance("2026-07-06", Action::Status), s);
}

#[test]
fn mood_thresholds() {
    let m = |pats: u64, feeds: u64| {
        State {
            pats_today: pats,
            feeds_today: feeds,
            ..State::default()
        }
        .mood()
    };
    assert_eq!(m(0, 0), Mood::Waiting);
    assert_eq!(m(2, 0), Mood::Happy);
    assert_eq!(m(3, 3), Mood::Purring);
    assert_eq!(m(6, 6), Mood::Spoiled);
}

#[test]
fn mood_threshold_edges() {
    let m = |pats: u64, feeds: u64| {
        State {
            pats_today: pats,
            feeds_today: feeds,
            ..State::default()
        }
        .mood()
    };
    assert_eq!(m(1, 0), Mood::Happy);
    assert_eq!(m(0, 3), Mood::Happy);
    assert_eq!(m(4, 0), Mood::Purring);
    assert_eq!(m(9, 0), Mood::Purring);
    assert_eq!(m(5, 5), Mood::Spoiled);
    assert_eq!(m(u64::MAX, 0), Mood::Spoiled);
}

#[test]
fn default_state_is_a_fresh_cat() {
    let s = State::default();
    assert_eq!(s.last_seen, "");
    assert_eq!(s.pats_today, 0);
    assert_eq!(s.feeds_today, 0);
    assert_eq!(s.total_pats, 0);
    assert_eq!(s.total_feeds, 0);
}

#[test]
fn feed_on_a_new_day_counts_one_feed() {
    let s = State {
        last_seen: "2026-07-05".into(),
        pats_today: 3,
        feeds_today: 7,
        total_pats: 30,
        total_feeds: 70,
    };
    let n = s.advance("2026-07-06", Action::Feed);
    assert_eq!(n.pats_today, 0);
    assert_eq!(n.feeds_today, 1);
    assert_eq!(n.total_pats, 30);
    assert_eq!(n.total_feeds, 71);
}

#[test]
fn summon_on_a_new_day_resets_only_today() {
    let s = State {
        last_seen: "2026-07-05".into(),
        pats_today: 3,
        feeds_today: 7,
        total_pats: 30,
        total_feeds: 70,
    };
    let n = s.advance("2026-07-06", Action::Summon);
    assert_eq!(
        n,
        State {
            last_seen: "2026-07-06".into(),
            pats_today: 0,
            feeds_today: 0,
            total_pats: 30,
            total_feeds: 70,
        }
    );
}

#[test]
fn a_day_of_visits_adds_up() {
    let mut s = State {
        last_seen: "2026-07-05".into(),
        pats_today: 4,
        feeds_today: 4,
        total_pats: 10,
        total_feeds: 10,
    };
    let day = "2026-07-06";
    for a in [Action::Pat, Action::Feed, Action::Summon, Action::Pat, Action::Status, Action::Pat] {
        s = s.advance(day, a);
    }
    assert_eq!(s.pats_today, 3);
    assert_eq!(s.feeds_today, 1);
    assert_eq!(s.total_pats, 13);
    assert_eq!(s.total_feeds, 11);
    assert!(s.pats_today <= s.total_pats && s.feeds_today <= s.total_feeds);
}

#[test]
fn attention_never_lowers_mood() {
    let rank = |m: Mood| match m {
        Mood::Waiting => 0,
        Mood::Happy => 1,
        Mood::Purring => 2,
        Mood::Spoiled => 3,
    };
    let mut s = State {
        last_seen: "2026-07-06".into(),
        ..State::default()
    };
    let mut last = rank(s.mood());
    for i in 0..15 {
        let a = if i % 2 == 0 { Action::Pat } else { Action::Feed };
        s = s.advance("2026-07-06", a);
        let now = rank(s.mood());
        assert!(now >= last);
        last = now;
    }
    assert_eq!(s.mood(), Mood::Spoiled);
}

#[test]
fn states_differ_when_a_field_differs() {
    let a = State::default();
    let b = State {
        total_feeds: 1,
        ..State::default()
    };
    assert_ne!(a, b);
}

#[test]
fn a_cloned_state_is_equal() {
    let s = State {
        last_seen: "2026-07-06".into(),
        pats_today: 1,
        feeds_today: 2,
        total_pats: 3,
        total_feeds: 4,
    };
    let t = s.clone();
    assert_eq!(s, t);
}

#[test]
fn fits_visit_spots_an_overflow() {
    let s = State {
        last_seen: "2026-07-06".into(),
        pats_today: u64::MAX,
        feeds_today: 0,
        total_pats: u64::MAX - 1,
        total_feeds: u64::MAX,
    };
    assert!(!s.fits_visit("2026-07-06", Action::Pat));
    assert!(s.fits_visit("2026-07-07", Action::Pat));
    assert!(!s.fits_visit("2026-07-07", Action::Feed));
    assert!(s.fits_visit("2026-07-06", Action::Summon));
    assert!(s.fits_visit("2026-07-06", Action::Status));
    assert!(s.attention_fits());
    let t = State {
        feeds_today: 1,
        ..s.clone()
    };
    assert!(!t.attention_fits());
}
