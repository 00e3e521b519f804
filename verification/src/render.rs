//! What Haru prints for each action.
use vstd::prelude::*;

use crate::cats::{cat_set, random_cat, Pose};
use crate::lang::{mood_name, pool, unit_name, Lang, Messages, MessagesView};
use crate::sounds::{random_sound, sound_set, Sound};
use crate::state::{attention, mood_for, Action, State, StateView};
use crate::text::{
    brace_free, decimal, decimal_string, lemma_decimal_brace_free, lemma_fill_one,
    lemma_replace_after_brace_free, lemma_replace_brace_free, lemma_replace_head, replace,
    replace_all, views,
};

verus! {

// ---------------------------------------------------------------------------
// Specifications
// ---------------------------------------------------------------------------

/// The summon screen: sound, cat, and the tip line with its tip filled in,
/// separated by blank lines.
pub open spec fn summon_text(m: MessagesView, sound: Seq<char>, cat: Seq<char>, tip: Seq<char>) -> Seq<
    char,
> {
    sound + "\n\n"@ + cat + "\n\n"@ + replace_all(m.tip_line, "{tip}"@, tip)
}

/// A count line: `{n}` filled with the count, then `{unit}` with the unit word
/// for it.
pub open spec fn count_line(template: Seq<char>, m: MessagesView, n: nat) -> Seq<char> {
    replace_all(replace_all(template, "{n}"@, decimal(n)), "{unit}"@, unit_name(m, n))
}

/// A pat or feed screen: sound, cat, a flavor line, then the count line.
pub open spec fn visit_text(
    sound: Seq<char>,
    cat: Seq<char>,
    flavor: Seq<char>,
    count: Seq<char>,
) -> Seq<char> {
    sound + "\n\n"@ + cat + "\n\n"@ + flavor + "\n"@ + count
}

/// What the status screen says for "last seen": the date, or the word for
/// never when there is none.
pub open spec fn last_seen_text(m: MessagesView, s: StateView) -> Seq<char> {
    if s.last_seen.len() == 0 {
        m.never
    } else {
        s.last_seen
    }
}

/// The status screen: the status template with the mood, today's and the
/// total counts and the last-seen day filled in, in that order.
pub open spec fn status_text(m: MessagesView, s: StateView) -> Seq<char> {
    replace_all(
        replace_all(
            replace_all(
                replace_all(
                    replace_all(
                        replace_all(m.status, "{mood}"@, mood_name(m, mood_for(attention(s)))),
                        "{pats}"@,
                        decimal(s.pats_today),
                    ),
                    "{feeds}"@,
                    decimal(s.feeds_today),
                ),
                "{total_pats}"@,
                decimal(s.total_pats),
            ),
            "{total_feeds}"@,
            decimal(s.total_feeds),
        ),
        "{last_seen}"@,
        last_seen_text(m, s),
    )
}

/// `out` is a summon screen: a summon sound, a neutral cat and a tip from the
/// language's tips, composed as `summon_text` says.
pub open spec fn is_summon_screen(lang: &Lang, out: Seq<char>) -> bool {
    exists|sound: &str, cat: &str, tip: Seq<char>|
        #![trigger summon_text(lang.messages@, sound@, cat@, tip)]
        sound_set(Sound::Summon).contains(sound) && cat_set(Pose::Neutral).contains(cat) && pool(
            views(lang.tips@),
        ).contains(tip) && out == summon_text(lang.messages@, sound@, cat@, tip)
}

/// `out` is a pat screen for the state after a pat: a pat sound, a pat cat, a
/// pat flavor line and the count of today's pats.
pub open spec fn is_pat_screen(lang: &Lang, s: StateView, out: Seq<char>) -> bool {
    exists|sound: &str, cat: &str, flavor: Seq<char>|
        #![trigger visit_text(sound@, cat@, flavor, count_line(lang.messages.patted@, lang.messages@, s.pats_today))]
        sound_set(Sound::Pat).contains(sound) && cat_set(Pose::Pat).contains(cat) && pool(
            views(lang.pat_flavors@),
        ).contains(flavor) && out == visit_text(
            sound@,
            cat@,
            flavor,
            count_line(lang.messages.patted@, lang.messages@, s.pats_today),
        )
}

/// `out` is a feed screen for the state after a feed: a feed sound, a feed
/// cat, a feed flavor line and the count of today's feeds.
pub open spec fn is_feed_screen(lang: &Lang, s: StateView, out: Seq<char>) -> bool {
    exists|sound: &str, cat: &str, flavor: Seq<char>|
        #![trigger visit_text(sound@, cat@, flavor, count_line(lang.messages.fed@, lang.messages@, s.feeds_today))]
        sound_set(Sound::Feed).contains(sound) && cat_set(Pose::Feed).contains(cat) && pool(
            views(lang.feed_flavors@),
        ).contains(flavor) && out == visit_text(
            sound@,
            cat@,
            flavor,
            count_line(lang.messages.fed@, lang.messages@, s.feeds_today),
        )
}

// ---------------------------------------------------------------------------
// Screens from chosen parts
// ---------------------------------------------------------------------------

/// The summon screen for a given sound, cat and tip.
pub fn compose_summon(messages: &Messages, sound: &str, cat: &str, tip: &str) -> (r: String)
    ensures
        r@ == summon_text(messages@, sound@, cat@, tip@),
{
    proof {
        reveal_strlit("{tip}");
    }
    let line = replace(messages.tip_line.as_str(), "{tip}", tip);
    let mut out = String::from_str(sound);
    out.append("\n\n");
    out.append(cat);
    out.append("\n\n");
    out.append(line.as_str());
    out
}

/// A count line from its template and the count.
pub fn compose_count(messages: &Messages, template: &str, n: u64) -> (r: String)
    ensures
        r@ == count_line(template@, messages@, n as nat),
{
    proof {
        reveal_strlit("{n}");
        reveal_strlit("{unit}");
    }
    let number = decimal_string(n);
    let with_n = replace(template, "{n}", number.as_str());
    replace(with_n.as_str(), "{unit}", messages.unit(n))
}

/// A pat or feed screen for a given sound, cat, flavor line and count line.
pub fn compose_visit(sound: &str, cat: &str, flavor: &str, count: &str) -> (r: String)
    ensures
        r@ == visit_text(sound@, cat@, flavor@, count@),
{
    let mut out = String::from_str(sound);
    out.append("\n\n");
    out.append(cat);
    out.append("\n\n");
    out.append(flavor);
    out.append("\n");
    out.append(count);
    out
}

// ---------------------------------------------------------------------------
// Screens
// ---------------------------------------------------------------------------

/// `haru` — summon the cat: a summon sound, a neutral cat and a tip.
pub fn summon(lang: &Lang) -> (r: String)
    ensures
        is_summon_screen(lang, r@),
{
    let tip = lang.random_tip();
    let sound = random_sound(Sound::Summon);
    let cat = random_cat(Pose::Neutral);
    let r = compose_summon(&lang.messages, sound, cat, tip.as_str());
    assert(r@ == summon_text(lang.messages@, sound@, cat@, tip@));
    r
}

/// `haru --pat` — expects the state *after* the pat was applied.
/// Layout: sound, cat, a random flavor line, then the count line.
pub fn pat(lang: &Lang, state: &State) -> (r: String)
    ensures
        is_pat_screen(lang, state@, r@),
{
    let count = compose_count(&lang.messages, lang.messages.patted.as_str(), state.pats_today);
    let sound = random_sound(Sound::Pat);
    let cat = random_cat(Pose::Pat);
    let flavor = lang.random_pat_flavor();
    let r = compose_visit(sound, cat, flavor.as_str(), count.as_str());
    assert(r@ == visit_text(
        sound@,
        cat@,
        flavor@,
        count_line(lang.messages.patted@, lang.messages@, state@.pats_today),
    ));
    r
}

/// `haru --feed` — expects the state *after* the feed was applied.
/// Layout: sound, cat, a random flavor line, then the count line.
pub fn feed(lang: &Lang, state: &State) -> (r: String)
    ensures
        is_feed_screen(lang, state@, r@),
{
    let count = compose_count(&lang.messages, lang.messages.fed.as_str(), state.feeds_today);
    let sound = random_sound(Sound::Feed);
    let cat = random_cat(Pose::Feed);
    let flavor = lang.random_feed_flavor();
    let r = compose_visit(sound, cat, flavor.as_str(), count.as_str());
    assert(r@ == visit_text(
        sound@,
        cat@,
        flavor@,
        count_line(lang.messages.fed@, lang.messages@, state@.feeds_today),
    ));
    r
}

/// `haru --status` — a plain, scannable dashboard. No cat. Today's pats and
/// feeds together must fit in a `u64`, for the mood.
pub fn status(lang: &Lang, state: &State) -> (r: String)
    requires
        state.pats_today + state.feeds_today <= u64::MAX,
    ensures
        r@ == status_text(lang.messages@, state@),
{
    proof {
        reveal_strlit("{mood}");
        reveal_strlit("{pats}");
        reveal_strlit("{feeds}");
        reveal_strlit("{total_pats}");
        reveal_strlit("{total_feeds}");
        reveal_strlit("{last_seen}");
    }
    let m = &lang.messages;
    let last_seen = if state.last_seen.as_str().is_empty() {
        m.never.as_str()
    } else {
        state.last_seen.as_str()
    };
    let pats = decimal_string(state.pats_today);
    let feeds = decimal_string(state.feeds_today);
    let total_pats = decimal_string(state.total_pats);
    let total_feeds = decimal_string(state.total_feeds);
    let s1 = replace(m.status.as_str(), "{mood}", m.mood(state.mood()));
    let s2 = replace(s1.as_str(), "{pats}", pats.as_str());
    let s3 = replace(s2.as_str(), "{feeds}", feeds.as_str());
    let s4 = replace(s3.as_str(), "{total_pats}", total_pats.as_str());
    let s5 = replace(s4.as_str(), "{total_feeds}", total_feeds.as_str());
    replace(s5.as_str(), "{last_seen}", last_seen)
}

/// The screen for an action, given the state after the visit: the summon
/// screen, the pat or feed screen with today's count, or the status
/// dashboard. For the status, today's pats and feeds together must fit in a
/// `u64`.
pub fn screen(lang: &Lang, state: &State, action: Action) -> (r: String)
    requires
        action is Status ==> state.pats_today + state.feeds_today <= u64::MAX,
    ensures
        action is Summon ==> is_summon_screen(lang, r@),
        action is Pat ==> is_pat_screen(lang, state@, r@),
        action is Feed ==> is_feed_screen(lang, state@, r@),
        action is Status ==> r@ == status_text(lang.messages@, state@),
{
    match action {
        Action::Summon => summon(lang),
        Action::Pat => pat(lang, state),
        Action::Feed => feed(lang, state),
        Action::Status => status(lang, state),
    }
}

// ---------------------------------------------------------------------------
// Laws
// ---------------------------------------------------------------------------

/// The status dashboard names the mood of today's attention, pats and feeds
/// together: in a status template whose one `{mood}` slot stands between
/// texts without a `{`, the slot holds the name of the mood for
/// `pats_today + feeds_today`, and nothing else changes.
pub proof fn law_status_shows_mood_of_pats_and_feeds(
    m: MessagesView,
    s: StateView,
    a: Seq<char>,
    b: Seq<char>,
)
    requires
        m.status == a + "{mood}"@ + b,
        brace_free(a),
        brace_free(b),
        brace_free(m.mood_waiting),
        brace_free(m.mood_happy),
        brace_free(m.mood_purring),
        brace_free(m.mood_spoiled),
    ensures
        status_text(m, s) == a + mood_name(m, mood_for(s.pats_today + s.feeds_today)) + b,
{
    reveal_strlit("{mood}");
    reveal_strlit("{pats}");
    reveal_strlit("{feeds}");
    reveal_strlit("{total_pats}");
    reveal_strlit("{total_feeds}");
    reveal_strlit("{last_seen}");
    let name = mood_name(m, mood_for(s.pats_today + s.feeds_today));
    lemma_fill_one(a, "{mood}"@, b, name);
    let x = a + name + b;
    assert(brace_free(x)) by {
        assert forall|i: int| 0 <= i < x.len() implies x[i] != '{' by {
            if i < a.len() {
                assert(x[i] == a[i]);
            } else if i < a.len() + name.len() {
                assert(x[i] == name[i - a.len()]);
            } else {
                assert(x[i] == b[i - a.len() - name.len()]);
            }
        }
    }
    lemma_replace_brace_free(x, "{pats}"@, decimal(s.pats_today));
    lemma_replace_brace_free(x, "{feeds}"@, decimal(s.feeds_today));
    lemma_replace_brace_free(x, "{total_pats}"@, decimal(s.total_pats));
    lemma_replace_brace_free(x, "{total_feeds}"@, decimal(s.total_feeds));
    lemma_replace_brace_free(x, "{last_seen}"@, last_seen_text(m, s));
}

/// A count line names the count in decimal and uses the singular unit word
/// exactly for a count of one: in a template `a {n} c {unit} b` whose other
/// texts hold no `{`, the line is `a`, the numeral, `c`, the unit word, `b`.
pub proof fn law_count_line_names_number_and_unit(
    m: MessagesView,
    n: nat,
    a: Seq<char>,
    c: Seq<char>,
    b: Seq<char>,
)
    requires
        brace_free(a),
        brace_free(c),
        brace_free(b),
    ensures
        count_line(a + "{n}"@ + c + "{unit}"@ + b, m, n) == a + decimal(n) + c + (if n == 1 {
            m.unit_one
        } else {
            m.unit_other
        }) + b,
{
    reveal_strlit("{n}");
    reveal_strlit("{unit}");
    let pn = "{n}"@;
    let pu = "{unit}"@;
    let d = decimal(n);
    let unit = if n == 1 {
        m.unit_one
    } else {
        m.unit_other
    };
    let u = pu + b;
    // the `{n}` pass leaves `{unit}` and what follows it alone
    assert(u.take(pn.len() as int) != pn) by {
        assert(u.take(pn.len() as int)[1] == 'u');
    }
    let tail = u.drop_first();
    assert(brace_free(tail)) by {
        assert forall|i: int| 0 <= i < tail.len() implies tail[i] != '{' by {
            if i + 1 < pu.len() {
                assert(tail[i] == pu[i + 1]);
            } else {
                assert(tail[i] == b[i + 1 - pu.len()]);
            }
        }
    }
    lemma_replace_brace_free(tail, pn, d);
    assert(u =~= seq![u[0]] + tail);
    assert(replace_all(u, pn, d) == u);
    lemma_replace_after_brace_free(c, u, pn, d);
    lemma_replace_head(pn, c + u, d);
    lemma_replace_after_brace_free(a, pn + (c + u), pn, d);
    assert(a + pn + c + pu + b =~= a + (pn + (c + u)));
    assert(replace_all(a + pn + c + pu + b, pn, d) =~= (a + d + c) + pu + b);
    // the `{unit}` pass
    lemma_decimal_brace_free(n);
    let front = a + d + c;
    assert(brace_free(front)) by {
        assert forall|i: int| 0 <= i < front.len() implies front[i] != '{' by {
            if i < a.len() {
                assert(front[i] == a[i]);
            } else if i < a.len() + d.len() {
                assert(front[i] == d[i - a.len()]);
            } else {
                assert(front[i] == c[i - a.len() - d.len()]);
            }
        }
    }
    lemma_fill_one(front, pu, b, unit);
}

/// The tip on a summon screen is one of the language's tips: with a tip line
/// whose one `{tip}` slot stands between texts without a `{`, the screen ends
/// with the text before the slot, a line of the tips pool, and the text after.
pub proof fn law_summon_tip_comes_from_tips(lang: &Lang, out: Seq<char>, a: Seq<char>, b: Seq<char>)
    requires
        is_summon_screen(lang, out),
        lang.messages.tip_line@ == a + "{tip}"@ + b,
        brace_free(a),
        brace_free(b),
    ensures
        exists|prefix: Seq<char>, tip: Seq<char>|
            #![trigger pool(views(lang.tips@)).contains(tip), prefix + a + tip + b]
            pool(views(lang.tips@)).contains(tip) && out == prefix + a + tip + b,
{
    reveal_strlit("{tip}");
    let (sound, cat, tip) = choose|sound: &str, cat: &str, tip: Seq<char>|
        #![trigger summon_text(lang.messages@, sound@, cat@, tip)]
        sound_set(Sound::Summon).contains(sound) && cat_set(Pose::Neutral).contains(cat) && pool(
            views(lang.tips@),
        ).contains(tip) && out == summon_text(lang.messages@, sound@, cat@, tip);
    lemma_fill_one(a, "{tip}"@, b, tip);
    let prefix = sound@ + "

"@ + cat@ + "

"@;
    assert(out =~= prefix + (a + tip + b));
    assert(prefix + (a + tip + b) =~= prefix + a + tip + b);
}

/// A pat screen ends with a reaction from the pat pool, then the count of
/// today's pats: with a `patted` template `a {n} c {unit} b` whose other texts
/// hold no `{`, the last line is `a`, today's pats in decimal, `c`, the unit
/// word (singular for one pat), `b`.
pub proof fn law_pat_screen_ends_with_pat_reaction_and_pats(
    lang: &Lang,
    s: StateView,
    out: Seq<char>,
    a: Seq<char>,
    c: Seq<char>,
    b: Seq<char>,
)
    requires
        is_pat_screen(lang, s, out),
        lang.messages.patted@ == a + "{n}"@ + c + "{unit}"@ + b,
        brace_free(a),
        brace_free(c),
        brace_free(b),
    ensures
        exists|prefix: Seq<char>, flavor: Seq<char>|
            #![trigger pool(views(lang.pat_flavors@)).contains(flavor), prefix + flavor]
            pool(views(lang.pat_flavors@)).contains(flavor) && out == prefix + flavor + "
"@ + a
                + decimal(s.pats_today) + c + (if s.pats_today == 1 {
                lang.messages.unit_one@
            } else {
                lang.messages.unit_other@
            }) + b,
{
    let m = lang.messages@;
    let (sound, cat, flavor) = choose|sound: &str, cat: &str, flavor: Seq<char>|
        #![trigger visit_text(sound@, cat@, flavor, count_line(lang.messages.patted@, lang.messages@, s.pats_today))]
        sound_set(Sound::Pat).contains(sound) && cat_set(Pose::Pat).contains(cat) && pool(
            views(lang.pat_flavors@),
        ).contains(flavor) && out == visit_text(
            sound@,
            cat@,
            flavor,
            count_line(lang.messages.patted@, lang.messages@, s.pats_today),
        );
    law_count_line_names_number_and_unit(m, s.pats_today, a, c, b);
    let prefix = sound@ + "

"@ + cat@ + "

"@;
    let unit = if s.pats_today == 1 {
        m.unit_one
    } else {
        m.unit_other
    };
    assert(out =~= prefix + flavor + "
"@ + (a + decimal(s.pats_today) + c + unit + b));
    assert(prefix + flavor + "
"@ + (a + decimal(s.pats_today) + c + unit + b) =~= prefix
        + flavor + "
"@ + a + decimal(s.pats_today) + c + unit + b);
}

/// A feed screen ends with a reaction from the feed pool, then the count of
/// today's feeds: with a `fed` template `a {n} c {unit} b` whose other texts
/// hold no `{`, the last line is `a`, today's feeds in decimal, `c`, the unit
/// word (singular for one feed), `b`.
pub proof fn law_feed_screen_ends_with_feed_reaction_and_feeds(
    lang: &Lang,
    s: StateView,
    out: Seq<char>,
    a: Seq<char>,
    c: Seq<char>,
    b: Seq<char>,
)
    requires
        is_feed_screen(lang, s, out),
        lang.messages.fed@ == a + "{n}"@ + c + "{unit}"@ + b,
        brace_free(a),
        brace_free(c),
        brace_free(b),
    ensures
        exists|prefix: Seq<char>, flavor: Seq<char>|
            #![trigger pool(views(lang.feed_flavors@)).contains(flavor), prefix + flavor]
            pool(views(lang.feed_flavors@)).contains(flavor) && out == prefix + flavor + "
"@ + a
                + decimal(s.feeds_today) + c + (if s.feeds_today == 1 {
                lang.messages.unit_one@
            } else {
                lang.messages.unit_other@
            }) + b,
{
    let m = lang.messages@;
    let (sound, cat, flavor) = choose|sound: &str, cat: &str, flavor: Seq<char>|
        #![trigger visit_text(sound@, cat@, flavor, count_line(lang.messages.fed@, lang.messages@, s.feeds_today))]
        sound_set(Sound::Feed).contains(sound) && cat_set(Pose::Feed).contains(cat) && pool(
            views(lang.feed_flavors@),
        ).contains(flavor) && out == visit_text(
            sound@,
            cat@,
            flavor,
            count_line(lang.messages.fed@, lang.messages@, s.feeds_today),
        );
    law_count_line_names_number_and_unit(m, s.feeds_today, a, c, b);
    let prefix = sound@ + "

"@ + cat@ + "

"@;
    let unit = if s.feeds_today == 1 {
        m.unit_one
    } else {
        m.unit_other
    };
    assert(out =~= prefix + flavor + "
"@ + (a + decimal(s.feeds_today) + c + unit + b));
    assert(prefix + flavor + "
"@ + (a + decimal(s.feeds_today) + c + unit + b) =~= prefix
        + flavor + "
"@ + a + decimal(s.feeds_today) + c + unit + b);
}

} // verus!
