use haru::cli::Cli;
use haru::state::Action;

fn cli(pat: bool, feed: bool, status: bool) -> Cli {
    Cli { pat, feed, status, lang: None }
}

#[test]
fn no_flag_summons() {
    assert_eq!(cli(false, false, false).action(), Action::Summon);
}

#[test]
fn single_flags_select_their_action() {
    assert_eq!(cli(true, false, false).action(), Action::Pat);
    assert_eq!(cli(false, true, false).action(), Action::Feed);
    assert_eq!(cli(false, false, true).action(), Action::Status);
}

#[test]
fn status_beats_feed_beats_pat() {
    assert_eq!(cli(true, true, true).action(), Action::Status);
    assert_eq!(cli(true, true, false).action(), Action::Feed);
    assert_eq!(cli(true, false, true).action(), Action::Status);
    assert_eq!(cli(false, true, true).action(), Action::Status);
}
