//! Haru's remembered state, the daily roll-over, and the mood it shows.
use vstd::prelude::*;

use crate::text::str_eq;

verus! {

/// What the user asked Haru to do this run.
#[derive(Debug, Clone, Copy, PartialEq, Eq, Structural)]
pub enum Action {
    Summon,
    Pat,
    Feed,
    Status,
}

/// Haru's mood, derived from today's attention. The enum is language-neutral;
/// each language names the moods for display.
#[derive(Debug, Clone, Copy, PartialEq, Eq, Structural)]
pub enum Mood {
    Waiting,
    Happy,
    Purring,
    Spoiled,
}

/// Haru's save file. Dates are stored as "YYYY-MM-DD".
#[derive(Debug, Clone)]
pub struct State {
    pub last_seen: String,
    pub pats_today: u64,
    pub feeds_today: u64,
    pub total_pats: u64,
    pub total_feeds: u64,
}

/// The mathematical content of a `State`.
pub struct StateView {
    pub last_seen: Seq<char>,
    pub pats_today: nat,
    pub feeds_today: nat,
    pub total_pats: nat,
    pub total_feeds: nat,
}

impl View for State {
    type V = StateView;

    open spec fn view(&self) -> StateView {
        StateView {
            last_seen: self.last_seen@,
            pats_today: self.pats_today as nat,
            feeds_today: self.feeds_today as nat,
            total_pats: self.total_pats as nat,
            total_feeds: self.total_feeds as nat,
        }
    }
}

/// One visit on `today`: roll the day over if `today` differs from
/// `last_seen` (zeroing today's counts, keeping the totals), stamp
/// `last_seen`, then count a pat or a feed.
pub open spec fn step(s: StateView, today: Seq<char>, action: Action) -> StateView {
    let same_day = s.last_seen == today;
    let pats: nat = if same_day {
        s.pats_today
    } else {
        0
    };
    let feeds: nat = if same_day {
        s.feeds_today
    } else {
        0
    };
    StateView {
        last_seen: today,
        pats_today: if action is Pat {
            pats + 1
        } else {
            pats
        },
        feeds_today: if action is Feed {
            feeds + 1
        } else {
            feeds
        },
        total_pats: if action is Pat {
            s.total_pats + 1
        } else {
            s.total_pats
        },
        total_feeds: if action is Feed {
            s.total_feeds + 1
        } else {
            s.total_feeds
        },
    }
}

/// Every counter of `s` fits in a `u64`.
pub open spec fn fits_u64(s: StateView) -> bool {
    &&& s.pats_today <= u64::MAX
    &&& s.feeds_today <= u64::MAX
    &&& s.total_pats <= u64::MAX
    &&& s.total_feeds <= u64::MAX
}

/// Today's attention: pats and feeds together.
pub open spec fn attention(s: StateView) -> nat {
    s.pats_today + s.feeds_today
}

/// The mood for a day's attention: none, 1 to 3, 4 to 9, 10 or more.
pub open spec fn mood_for(attention: nat) -> Mood {
    if attention == 0 {
        Mood::Waiting
    } else if attention <= 3 {
        Mood::Happy
    } else if attention <= 9 {
        Mood::Purring
    } else {
        Mood::Spoiled
    }
}

/// The moods in order, from waiting to spoiled.
pub open spec fn mood_rank(m: Mood) -> nat {
    match m {
        Mood::Waiting => 0,
        Mood::Happy => 1,
        Mood::Purring => 2,
        Mood::Spoiled => 3,
    }
}

/// The state after a run of visits on one day, in order.
pub open spec fn replay(s: StateView, day: Seq<char>, actions: Seq<Action>) -> StateView
    decreases actions.len(),
{
    if actions.len() == 0 {
        s
    } else {
        step(replay(s, day, actions.drop_last()), day, actions.last())
    }
}

/// How many times `a` occurs in `actions`.
pub open spec fn count_of(actions: Seq<Action>, a: Action) -> nat
    decreases actions.len(),
{
    if actions.len() == 0 {
        0
    } else {
        count_of(actions.drop_last(), a) + if actions.last() == a {
            1nat
        } else {
            0nat
        }
    }
}

impl PartialEq for State {
    fn eq(&self, other: &Self) -> (r: bool) {
        self.last_seen == other.last_seen && self.pats_today == other.pats_today
            && self.feeds_today == other.feeds_today && self.total_pats == other.total_pats
            && self.total_feeds == other.total_feeds
    }
}

impl Eq for State {

}

impl vstd::std_specs::cmp::PartialEqSpecImpl for State {
    open spec fn obeys_eq_spec() -> bool {
        true
    }

    open spec fn eq_spec(&self, other: &Self) -> bool {
        self@ == other@
    }
}

impl Default for State {
    /// A fresh cat: never seen, nothing counted.
    fn default() -> (r: Self)
        ensures
            r@.last_seen == Seq::<char>::empty(),
            r.pats_today == 0,
            r.feeds_today == 0,
            r.total_pats == 0,
            r.total_feeds == 0,
    {
        State {
            last_seen: String::new(),
            pats_today: 0,
            feeds_today: 0,
            total_pats: 0,
            total_feeds: 0,
        }
    }
}

impl State {
    /// Pure transition: roll the day over if `today` differs from `last_seen`
    /// (zeroing today's counts but keeping totals), stamp `last_seen`, then
    /// apply the action. A count that would pass `u64::MAX` is an overflow,
    /// which callers rule out.
    pub fn advance(&self, today: &str, action: Action) -> (r: State)
        requires
            fits_u64(step(self@, today@, action)),
        ensures
            r@ == step(self@, today@, action),
    {
        let same_day = str_eq(self.last_seen.as_str(), today);
        let mut pats_today = if same_day {
            self.pats_today
        } else {
            0
        };
        let mut feeds_today = if same_day {
            self.feeds_today
        } else {
            0
        };
        let mut total_pats = self.total_pats;
        let mut total_feeds = self.total_feeds;
        match action {
            Action::Pat => {
                pats_today += 1;
                total_pats += 1;
            },
            Action::Feed => {
                feeds_today += 1;
                total_feeds += 1;
            },
            Action::Summon | Action::Status => {},
        }
        State { last_seen: today.to_owned(), pats_today, feeds_today, total_pats, total_feeds }
    }

    /// Whether a visit on `today` keeps every counter within `u64`, so that
    /// `advance` may be called.
    pub fn fits_visit(&self, today: &str, action: Action) -> (r: bool)
        ensures
            r == fits_u64(step(self@, today@, action)),
    {
        let same_day = str_eq(self.last_seen.as_str(), today);
        match action {
            Action::Pat => self.total_pats < u64::MAX && (!same_day || self.pats_today < u64::MAX),
            Action::Feed => self.total_feeds < u64::MAX && (!same_day || self.feeds_today
                < u64::MAX),
            Action::Summon | Action::Status => true,
        }
    }

    /// Whether today's pats and feeds together fit in a `u64`, so that
    /// `mood` and the status screen may be asked for.
    pub fn attention_fits(&self) -> (r: bool)
        ensures
            r == (self.pats_today + self.feeds_today <= u64::MAX),
    {
        self.pats_today <= u64::MAX - self.feeds_today
    }

    /// A gentle mood derived purely from today's attention. Never stored.
    /// The sum of today's pats and feeds must fit in a `u64`.
    pub fn mood(&self) -> (r: Mood)
        requires
            self.pats_today + self.feeds_today <= u64::MAX,
        ensures
            r == mood_for(attention(self@)),
    {
        let total = self.pats_today + self.feeds_today;
        if total == 0 {
            Mood::Waiting
        } else if total <= 3 {
            Mood::Happy
        } else if total <= 9 {
            Mood::Purring
        } else {
            Mood::Spoiled
        }
    }
}

// ---------------------------------------------------------------------------
// Laws
// ---------------------------------------------------------------------------

/// Summoning Haru or asking for its status on the day it was last seen
/// changes nothing.
pub proof fn law_quiet_visits_change_nothing(s: StateView, today: Seq<char>)
    requires
        s.last_seen == today,
    ensures
        step(s, today, Action::Summon) == s,
        step(s, today, Action::Status) == s,
{
}

/// On a new day today's counts start from zero while the totals are kept,
/// however long Haru was away.
pub proof fn law_new_day_resets_today_keeps_totals(
    s: StateView,
    today: Seq<char>,
    action: Action,
)
    requires
        s.last_seen != today,
    ensures
        step(s, today, action).pats_today == (if action is Pat {
            1nat
        } else {
            0nat
        }),
        step(s, today, action).feeds_today == (if action is Feed {
            1nat
        } else {
            0nat
        }),
        step(s, today, action).total_pats >= s.total_pats,
        step(s, today, action).total_feeds >= s.total_feeds,
        step(s, today, action).last_seen == today,
{
}

/// Over any run of visits on one day, the totals grow by exactly the pats and
/// feeds of the run; today's counts do too when the day was already today,
/// and count only the run's own pats and feeds otherwise.
pub proof fn law_a_day_of_visits(s: StateView, day: Seq<char>, actions: Seq<Action>)
    ensures
        replay(s, day, actions).total_pats == s.total_pats + count_of(actions, Action::Pat),
        replay(s, day, actions).total_feeds == s.total_feeds + count_of(actions, Action::Feed),
        s.last_seen == day ==> replay(s, day, actions).pats_today == s.pats_today + count_of(
            actions,
            Action::Pat,
        ),
        s.last_seen == day ==> replay(s, day, actions).feeds_today == s.feeds_today
            + count_of(actions, Action::Feed),
        s.last_seen != day && actions.len() > 0 ==> replay(s, day, actions).pats_today
            == count_of(actions, Action::Pat),
        s.last_seen != day && actions.len() > 0 ==> replay(s, day, actions).feeds_today
            == count_of(actions, Action::Feed),
        actions.len() > 0 ==> replay(s, day, actions).last_seen == day,
    decreases actions.len(),
{
    if actions.len() > 0 {
        law_a_day_of_visits(s, day, actions.drop_last());
        if actions.len() == 1 {
            assert(actions.drop_last().len() == 0);
        }
    }
}

/// Today's counts never exceed the totals, and a visit keeps it so.
pub proof fn law_today_within_totals(s: StateView, today: Seq<char>, action: Action)
    requires
        s.pats_today <= s.total_pats,
        s.feeds_today <= s.total_feeds,
    ensures
        step(s, today, action).pats_today <= step(s, today, action).total_pats,
        step(s, today, action).feeds_today <= step(s, today, action).total_feeds,
{
}

/// More attention never makes the mood worse.
pub proof fn law_mood_is_monotone(a: nat, b: nat)
    requires
        a <= b,
    ensures
        mood_rank(mood_for(a)) <= mood_rank(mood_for(b)),
{
}

/// A pat or a feed on the same day never lowers Haru's mood.
pub proof fn law_attention_never_lowers_mood(s: StateView, today: Seq<char>, action: Action)
    requires
        s.last_seen == today,
    ensures
        mood_rank(mood_for(attention(s))) <= mood_rank(mood_for(attention(step(s, today, action)))),
{
    law_mood_is_monotone(attention(s), attention(step(s, today, action)));
}

} // verus!
