//! Languages: the localized messages, the line pools, and how the active
//! language is chosen and loaded.
use vstd::prelude::*;

use crate::packs::{
    pack_table, packs, Pack, DEFAULT_CODE, EN_CODE, EN_FEED, EN_MESSAGES, EN_PAT, EN_TIPS, JA_CODE,
    JA_FEED, JA_MESSAGES, JA_PAT, JA_TIPS, ZH_CODE, ZH_FEED, ZH_MESSAGES, ZH_PAT, ZH_TIPS,
};
use crate::random::choose_one;
use crate::state::Mood;
use crate::text::{
    chars_of, first_subtag, lemma_pool_starts_with_content, is_subtag_sep, lemma_subtag_len, first_subtag_str, lemma_line_len_at,
    is_ascii_text, ascii_lowercase, lower_case, pool_lines, split_lines, clean_lines, kept_line, str_eq, string_of_range,
    to_lowercase, trim, trim_bounds, trim_str, views,
};

verus! {

// ---------------------------------------------------------------------------
// Messages
// ---------------------------------------------------------------------------

/// Localized UI strings. Templates use `{placeholder}` tokens that rendering
/// fills in. The sounds are universal and live with the sounds.
#[derive(Debug)]
pub struct Messages {
    pub tip_line: String,
    pub unit_one: String,
    pub unit_other: String,
    pub patted: String,
    pub fed: String,
    pub status: String,
    pub never: String,
    pub mood_waiting: String,
    pub mood_happy: String,
    pub mood_purring: String,
    pub mood_spoiled: String,
}

/// The characters of each message.
pub struct MessagesView {
    pub tip_line: Seq<char>,
    pub unit_one: Seq<char>,
    pub unit_other: Seq<char>,
    pub patted: Seq<char>,
    pub fed: Seq<char>,
    pub status: Seq<char>,
    pub never: Seq<char>,
    pub mood_waiting: Seq<char>,
    pub mood_happy: Seq<char>,
    pub mood_purring: Seq<char>,
    pub mood_spoiled: Seq<char>,
}

impl View for Messages {
    type V = MessagesView;

    open spec fn view(&self) -> MessagesView {
        MessagesView {
            tip_line: self.tip_line@,
            unit_one: self.unit_one@,
            unit_other: self.unit_other@,
            patted: self.patted@,
            fed: self.fed@,
            status: self.status@,
            never: self.never@,
            mood_waiting: self.mood_waiting@,
            mood_happy: self.mood_happy@,
            mood_purring: self.mood_purring@,
            mood_spoiled: self.mood_spoiled@,
        }
    }
}

/// The localized name of a mood.
pub open spec fn mood_name(m: MessagesView, mood: Mood) -> Seq<char> {
    match mood {
        Mood::Waiting => m.mood_waiting,
        Mood::Happy => m.mood_happy,
        Mood::Purring => m.mood_purring,
        Mood::Spoiled => m.mood_spoiled,
    }
}

/// The unit word for a count: the singular for exactly one, else the plural.
pub open spec fn unit_name(m: MessagesView, n: nat) -> Seq<char> {
    if n == 1 {
        m.unit_one
    } else {
        m.unit_other
    }
}

impl Messages {
    /// The localized name of `mood`.
    pub fn mood(&self, mood: Mood) -> (r: &str)
        ensures
            r@ == mood_name(self@, mood),
    {
        match mood {
            Mood::Waiting => self.mood_waiting.as_str(),
            Mood::Happy => self.mood_happy.as_str(),
            Mood::Purring => self.mood_purring.as_str(),
            Mood::Spoiled => self.mood_spoiled.as_str(),
        }
    }

    /// The unit word for `n`: singular for one, plural otherwise.
    pub fn unit(&self, n: u64) -> (r: &str)
        ensures
            r@ == unit_name(self@, n as nat),
    {
        if n == 1 {
            self.unit_one.as_str()
        } else {
            self.unit_other.as_str()
        }
    }
}

// ---------------------------------------------------------------------------
// Reading the messages of a pack
// ---------------------------------------------------------------------------

/// What serde_json makes of `text` when it is read as a JSON value and the
/// field `key` is asked for as a string: `None` when `text` is not valid JSON,
/// is not an object, lacks the field, or holds a non-string there.
pub uninterp spec fn json_str_field(text: Seq<char>, key: Seq<char>) -> Option<Seq<char>>;

/// The characters of an optional string.
pub open spec fn opt_view(o: Option<String>) -> Option<Seq<char>> {
    match o {
        Some(s) => Some(s@),
        None => None,
    }
}

/// The characters of an optional string slice.
pub open spec fn opt_str_view(o: Option<&str>) -> Option<Seq<char>> {
    match o {
        Some(s) => Some(s@),
        None => None,
    }
}

/// Reads `text` with `serde_json::from_str` into a `serde_json::Value`, takes
/// the field `key` with `Value::get` and reads it with `Value::as_str`.
/// Trusted to return the named result `json_str_field(text@, key@)`, which
/// depends on `text` and `key` alone; what JSON parsing yields is not stated.
/// (Of a key given twice in the object, serde_json's `Value` keeps the last.)
#[verifier::external_body]
fn json_string_field(text: &str, key: &str) -> (r: Option<String>)
    ensures
        opt_view(r) == json_str_field(text@, key@),
{
    Some(serde_json::from_str::<serde_json::Value>(text).ok()?.get(key)?.as_str()?.to_owned())
}

/// The messages made of eleven fields, when every one of them is present.
pub open spec fn messages_of_fields(
    tip_line: Option<Seq<char>>,
    unit_one: Option<Seq<char>>,
    unit_other: Option<Seq<char>>,
    patted: Option<Seq<char>>,
    fed: Option<Seq<char>>,
    status: Option<Seq<char>>,
    never: Option<Seq<char>>,
    mood_waiting: Option<Seq<char>>,
    mood_happy: Option<Seq<char>>,
    mood_purring: Option<Seq<char>>,
    mood_spoiled: Option<Seq<char>>,
) -> Option<MessagesView> {
    if tip_line is Some && unit_one is Some && unit_other is Some && patted is Some && fed is Some
        && status is Some && never is Some && mood_waiting is Some && mood_happy is Some
        && mood_purring is Some && mood_spoiled is Some {
        Some(
            MessagesView {
                tip_line: tip_line->0,
                unit_one: unit_one->0,
                unit_other: unit_other->0,
                patted: patted->0,
                fed: fed->0,
                status: status->0,
                never: never->0,
                mood_waiting: mood_waiting->0,
                mood_happy: mood_happy->0,
                mood_purring: mood_purring->0,
                mood_spoiled: mood_spoiled->0,
            },
        )
    } else {
        None
    }
}

/// The messages that a JSON text holds: each message is the string field of
/// its name; any missing one makes the text unusable.
pub open spec fn parsed_messages(text: Seq<char>) -> Option<MessagesView> {
    messages_of_fields(
        json_str_field(text, "tip_line"@),
        json_str_field(text, "unit_one"@),
        json_str_field(text, "unit_other"@),
        json_str_field(text, "patted"@),
        json_str_field(text, "fed"@),
        json_str_field(text, "status"@),
        json_str_field(text, "never"@),
        json_str_field(text, "mood_waiting"@),
        json_str_field(text, "mood_happy"@),
        json_str_field(text, "mood_purring"@),
        json_str_field(text, "mood_spoiled"@),
    )
}

/// Builds the messages from the eleven fields read out of a messages text:
/// `Some` exactly when every field is present.
pub fn messages_from_fields(
    tip_line: Option<String>,
    unit_one: Option<String>,
    unit_other: Option<String>,
    patted: Option<String>,
    fed: Option<String>,
    status: Option<String>,
    never: Option<String>,
    mood_waiting: Option<String>,
    mood_happy: Option<String>,
    mood_purring: Option<String>,
    mood_spoiled: Option<String>,
) -> (r: Option<Messages>)
    ensures
        match r {
            Some(m) => messages_of_fields(
                opt_view(tip_line),
                opt_view(unit_one),
                opt_view(unit_other),
                opt_view(patted),
                opt_view(fed),
                opt_view(status),
                opt_view(never),
                opt_view(mood_waiting),
                opt_view(mood_happy),
                opt_view(mood_purring),
                opt_view(mood_spoiled),
            ) == Some(m@),
            None => messages_of_fields(
                opt_view(tip_line),
                opt_view(unit_one),
                opt_view(unit_other),
                opt_view(patted),
                opt_view(fed),
                opt_view(status),
                opt_view(never),
                opt_view(mood_waiting),
                opt_view(mood_happy),
                opt_view(mood_purring),
                opt_view(mood_spoiled),
            ) is None,
        },
{
    match (tip_line, unit_one, unit_other, patted, fed, status, never) {
        (
            Some(tip_line),
            Some(unit_one),
            Some(unit_other),
            Some(patted),
            Some(fed),
            Some(status),
            Some(never),
        ) => match (mood_waiting, mood_happy, mood_purring, mood_spoiled) {
            (Some(mood_waiting), Some(mood_happy), Some(mood_purring), Some(mood_spoiled)) => {
                Some(
                    Messages {
                        tip_line,
                        unit_one,
                        unit_other,
                        patted,
                        fed,
                        status,
                        never,
                        mood_waiting,
                        mood_happy,
                        mood_purring,
                        mood_spoiled,
                    },
                )
            },
            _ => None,
        },
        _ => None,
    }
}

/// Reads the messages out of a JSON text: `Some` exactly when every message
/// is a string field of the top-level object.
pub fn parse_messages(text: &str) -> (r: Option<Messages>)
    ensures
        match r {
            Some(m) => parsed_messages(text@) == Some(m@),
            None => parsed_messages(text@) is None,
        },
{
    messages_from_fields(
        json_string_field(text, "tip_line"),
        json_string_field(text, "unit_one"),
        json_string_field(text, "unit_other"),
        json_string_field(text, "patted"),
        json_string_field(text, "fed"),
        json_string_field(text, "status"),
        json_string_field(text, "never"),
        json_string_field(text, "mood_waiting"),
        json_string_field(text, "mood_happy"),
        json_string_field(text, "mood_purring"),
        json_string_field(text, "mood_spoiled"),
    )
}

// ---------------------------------------------------------------------------
// Line pools
// ---------------------------------------------------------------------------

/// Non-empty, non-comment lines from a text pool, trimmed, in order.
pub fn parse_lines(raw: &str) -> (r: Vec<String>)
    ensures
        views(r@) == pool_lines(raw@),
{
    let cs = chars_of(raw);
    let n = cs.len();
    let mut out: Vec<String> = Vec::new();
    let mut start: usize = 0;
    let mut i: usize = 0;
    assert(cs@.skip(0) =~= cs@);
    assert(views(out@) =~= Seq::<Seq<char>>::empty());
    while i < n
        invariant
            n == cs.len(),
            0 <= start <= i <= n,
            forall|j: int| start <= j < i ==> cs@[j] != '\n',
            pool_lines(cs@) == views(out@) + clean_lines(split_lines(cs@.skip(start as int))),
        decreases n - i,
    {
        if cs[i] == '\n' {
            let ghost rest = cs@.skip(start as int);
            proof {
                assert forall|j: int| 0 <= j < i - start implies rest[j] != '\n' by {
                    assert(rest[j] == cs@[start + j]);
                }
                lemma_line_len_at(rest, i - start);
                assert(rest.take(i - start) =~= cs@.subrange(start as int, i as int));
                assert(rest.skip(i - start + 1) =~= cs@.skip(i + 1));
                assert(split_lines(rest) == seq![cs@.subrange(start as int, i as int)]
                    + split_lines(cs@.skip(i + 1)));
                let lines = split_lines(rest);
                assert(lines.drop_first() =~= split_lines(cs@.skip(i + 1)));
                assert(lines[0] == cs@.subrange(start as int, i as int));
            }
            let (a, b) = trim_bounds(&cs, start, i);
            let ghost before = views(out@);
            if b > a && cs[a] != '#' {
                let line = string_of_range(&cs, a, b);
                out.push(line);
                assert(views(out@) =~= before + seq![line@]);
            }
            assert(views(out@) + clean_lines(split_lines(cs@.skip(i + 1))) =~= before
                + clean_lines(split_lines(rest)));
            start = i + 1;
        }
        i += 1;
    }
    let ghost rest = cs@.skip(start as int);
    proof {
        assert forall|j: int| 0 <= j < n - start implies rest[j] != '\n' by {
            assert(rest[j] == cs@[start + j]);
        }
        lemma_line_len_at(rest, n - start);
        assert(rest =~= cs@.subrange(start as int, n as int));
        assert(split_lines(rest) == seq![rest]);
        assert(seq![rest].drop_first() =~= Seq::<Seq<char>>::empty());
        assert(clean_lines(Seq::<Seq<char>>::empty()) =~= Seq::<Seq<char>>::empty());
        assert(clean_lines(seq![rest]) == kept_line(trim(rest)) + clean_lines(
            seq![rest].drop_first(),
        ));
        assert(cs@.subrange(start as int, n as int) == rest);
    }
    let (a, b) = trim_bounds(&cs, start, n);
    let ghost before = views(out@);
    if b > a && cs[a] != '#' {
        let line = string_of_range(&cs, a, b);
        out.push(line);
        assert(views(out@) =~= before + seq![line@]);
    }
    assert(views(out@) =~= before + clean_lines(split_lines(rest)));
    out
}

// ---------------------------------------------------------------------------
// Choosing the language
// ---------------------------------------------------------------------------

/// The first pack of `table` whose code is `code`.
pub open spec fn find_pack(table: Seq<Pack>, code: Seq<char>) -> Option<Pack>
    decreases table.len(),
{
    if table.len() == 0 {
        None
    } else if table[0].code@ == code {
        Some(table[0])
    } else {
        find_pack(table.drop_first(), code)
    }
}

/// The pack for a language code: the built-in pack with that code, else the
/// default language's pack.
pub open spec fn pack_for_code(code: Seq<char>) -> Pack {
    match find_pack(pack_table(), code) {
        Some(p) => p,
        None => find_pack(pack_table(), DEFAULT_CODE@)->0,
    }
}

fn find_in(table: &Vec<Pack>, code: &str) -> (r: Option<Pack>)
    ensures
        r == find_pack(table@, code@),
{
    let mut i: usize = 0;
    assert(table@.skip(0) =~= table@);
    while i < table.len()
        invariant
            0 <= i <= table.len(),
            find_pack(table@, code@) == find_pack(table@.skip(i as int), code@),
        decreases table.len() - i,
    {
        assert(table@.skip(i as int).drop_first() =~= table@.skip(i + 1));
        if str_eq(table[i].code, code) {
            return Some(table[i]);
        }
        i += 1;
    }
    None
}

/// The embedded pack for `code`, or the default language's when none matches.
pub fn pack_for(code: &str) -> (r: Pack)
    ensures
        r == pack_for_code(code@),
{
    let table = packs();
    match find_in(&table, code) {
        Some(p) => p,
        None => {
            let fallback = find_in(&table, DEFAULT_CODE);
            match fallback {
                Some(p) => p,
                None => {
                    assert(table@[0].code@ == DEFAULT_CODE@);
                    table[0]
                },
            }
        },
    }
}

/// The primary subtag of a locale tag, lowercased.
pub open spec fn primary_subtag_of(locale: Seq<char>) -> Seq<char> {
    lower_case(first_subtag(locale))
}

/// Reduce a locale tag ("zh-CN", "zh_CN.UTF-8", "EN") to its lowercase primary
/// subtag ("zh", "zh", "en").
pub fn primary_subtag(locale: &str) -> (r: String)
    ensures
        r@ == primary_subtag_of(locale@),
{
    let first = first_subtag_str(locale);
    to_lowercase(first.as_str())
}

/// The language code chosen from a manual override, the `HARU_LANG` setting
/// and the system locale: the override wins; then the setting, unless it is
/// blank; then the locale; then the default.
pub open spec fn resolved_code(
    cli_lang: Option<Seq<char>>,
    env_lang: Option<Seq<char>>,
    system_locale: Option<Seq<char>>,
) -> Seq<char> {
    if cli_lang is Some {
        primary_subtag_of(cli_lang->0)
    } else if env_lang is Some && trim(env_lang->0).len() > 0 {
        primary_subtag_of(env_lang->0)
    } else if system_locale is Some {
        primary_subtag_of(system_locale->0)
    } else {
        DEFAULT_CODE@
    }
}

/// Resolve the language code. Manual override wins; then the `HARU_LANG`
/// value, if it is not blank; then the system locale; otherwise the default.
/// The caller reads the environment and the locale and hands them in.
pub fn resolve_code(
    cli_lang: Option<&str>,
    env_lang: Option<&str>,
    system_locale: Option<&str>,
) -> (r: String)
    ensures
        r@ == resolved_code(opt_str_view(cli_lang), opt_str_view(env_lang), opt_str_view(system_locale)),
{
    if let Some(code) = cli_lang {
        return primary_subtag(code);
    }
    if let Some(code) = env_lang {
        let trimmed = trim_str(code);
        if trimmed.as_str().unicode_len() > 0 {
            return primary_subtag(code);
        }
    }
    if let Some(locale) = system_locale {
        return primary_subtag(locale);
    }
    DEFAULT_CODE.to_owned()
}

// ---------------------------------------------------------------------------
// The active language
// ---------------------------------------------------------------------------

/// The resolved active language: parsed line pools and messages.
#[derive(Debug)]
pub struct Lang {
    pub tips: Vec<String>,
    pub pat_flavors: Vec<String>,
    pub feed_flavors: Vec<String>,
    pub messages: Messages,
}

/// What a pick can return: one of the lines, or "meow." for an empty pool.
pub open spec fn pool(items: Seq<Seq<char>>) -> Seq<Seq<char>> {
    if items.len() == 0 {
        seq!["meow."@]
    } else {
        items
    }
}

/// A random line of `items`, or "meow." when there is none.
pub fn pick(items: &Vec<String>) -> (r: String)
    ensures
        pool(views(items@)).contains(r@),
{
    match choose_one(items.as_slice()) {
        Some(s) => {
            let r = s.clone();
            proof {
                let i = choose|i: int| 0 <= i < items@.len() && items@[i] == *s;
                assert(views(items@)[i] == r@);
            }
            r
        },
        None => {
            let r = String::from_str("meow.");
            assert(pool(views(items@))[0] == r@);
            r
        },
    }
}

impl Lang {
    /// A random tip.
    pub fn random_tip(&self) -> (r: String)
        ensures
            pool(views(self.tips@)).contains(r@),
    {
        pick(&self.tips)
    }

    /// A random reaction to a pat.
    pub fn random_pat_flavor(&self) -> (r: String)
        ensures
            pool(views(self.pat_flavors@)).contains(r@),
    {
        pick(&self.pat_flavors)
    }

    /// A random reaction to a feed.
    pub fn random_feed_flavor(&self) -> (r: String)
        ensures
            pool(views(self.feed_flavors@)).contains(r@),
    {
        pick(&self.feed_flavors)
    }
}

/// The pack that the language settings select.
pub open spec fn resolved_pack(
    cli_lang: Option<Seq<char>>,
    env_lang: Option<Seq<char>>,
    system_locale: Option<Seq<char>>,
) -> Pack {
    pack_for_code(resolved_code(cli_lang, env_lang, system_locale))
}

/// Resolve the active language, loading its embedded pack. An unknown code
/// falls back to the default language. `None` when the pack's messages do not
/// read as a JSON object with every message as a string field.
pub fn resolve(cli_lang: Option<&str>, env_lang: Option<&str>, system_locale: Option<&str>) -> (r:
    Option<Lang>)
    ensures
        ({
            let pack = resolved_pack(
                opt_str_view(cli_lang),
                opt_str_view(env_lang),
                opt_str_view(system_locale),
            );
            &&& r is Some <==> parsed_messages(pack.messages@) is Some
            &&& r matches Some(l) ==> {
                &&& parsed_messages(pack.messages@) == Some(l.messages@)
                &&& views(l.tips@) == pool_lines(pack.tips@)
                &&& views(l.pat_flavors@) == pool_lines(pack.pat@)
                &&& views(l.feed_flavors@) == pool_lines(pack.feed@)
            }
        }),
{
    let code = resolve_code(cli_lang, env_lang, system_locale);
    let pack = pack_for(code.as_str());
    match parse_messages(pack.messages) {
        Some(messages) => Some(
            Lang {
                tips: parse_lines(pack.tips),
                pat_flavors: parse_lines(pack.pat),
                feed_flavors: parse_lines(pack.feed),
                messages,
            },
        ),
        None => None,
    }
}

// ---------------------------------------------------------------------------
// Laws
// ---------------------------------------------------------------------------

/// An unknown language code falls back to the default language, English.
pub proof fn law_unknown_code_falls_back(code: Seq<char>)
    requires
        find_pack(pack_table(), code) is None,
    ensures
        pack_for_code(code) == pack_table()[0],
        pack_for_code(code).code@ == DEFAULT_CODE@,
{
    assert(pack_table()[0].code@ == DEFAULT_CODE@);
}

/// Each built-in language is selected by its own code.
pub proof fn law_known_code_selects_its_pack(i: int)
    requires
        0 <= i < pack_table().len(),
    ensures
        pack_for_code(pack_table()[i].code@) == pack_table()[i],
{
    reveal_strlit("en");
    reveal_strlit("zh");
    reveal_strlit("ja");
    let t = pack_table();
    assert(EN_CODE@[0] == 'e');
    assert(ZH_CODE@[0] == 'z');
    assert(JA_CODE@[0] == 'j');
    assert(t[0].code@ != t[1].code@);
    assert(t[0].code@ != t[2].code@);
    assert(t[1].code@ != t[2].code@);
    assert(t.drop_first()[0] == t[1]);
    assert(t.drop_first().drop_first()[0] == t[2]);
    reveal_with_fuel(find_pack, 4);
}

/// Every built-in language has tips and reactions to a pat and to a feed:
/// each of its pools reads as at least one line.
pub proof fn law_built_in_pools_have_lines(i: int)
    requires
        0 <= i < pack_table().len(),
    ensures
        pool_lines(pack_table()[i].tips@).len() > 0,
        pool_lines(pack_table()[i].pat@).len() > 0,
        pool_lines(pack_table()[i].feed@).len() > 0,
{
    // Verus learns the characters of a string constant only from
    // `reveal_strlit` given the same text; each pool starts with a content
    // character.
    reveal_strlit("drink water before debugging. the bug can wait, your kidneys cannot.
stand up and stretch. your spine is not a question mark.
look at something far away for twenty seconds.
commit early, commit often, then take a break.
you are allowed to stop for today.
read the error message once more, slowly.
a short walk often fixes what an hour of staring cannot.
# tips, one per line. lines starting with '#' are ignored.
");
    reveal_strlit("Haru leans into your hand.
Haru closes its eyes, very pleased.
Haru does a slow blink at you.
Haru purrs like a tiny engine.
# reactions to a pat
");
    reveal_strlit("Haru eats with great focus.
Haru licks the bowl clean.
Haru looks up, then goes back to eating.
Haru approves of this meal.
# reactions to a feed
");
    reveal_strlit("调试之前先喝口水。bug 可以等，你的肾不能等。
站起来伸个懒腰吧。
看看远处，让眼睛休息二十秒。
今天已经很努力了，可以停下来了。
再慢慢读一遍报错信息。
# 小贴士，每行一条。以 '#' 开头的行会被忽略。
");
    reveal_strlit("Haru 把头靠在你的手上。
Haru 眯起了眼睛，很满足。
Haru 对你慢慢地眨了眨眼。
# 摸摸时的反应
");
    reveal_strlit("Haru 吃得很专心。
Haru 把碗舔得干干净净。
Haru 抬头看了你一眼，又继续吃。
# 喂食时的反应
");
    reveal_strlit("デバッグの前に水を飲もう。バグは待てるけど、腎臓は待てない。
立ち上がって、のびをしよう。
遠くを二十秒ながめて、目を休めよう。
今日はもう十分がんばったよ。
エラーメッセージをもう一度ゆっくり読もう。
# ヒント。一行にひとつ。'#' で始まる行は無視されます。
");
    reveal_strlit("Haru はあなたの手にすりよった。
Haru は目を細めて満足そう。
Haru はゆっくりまばたきをした。
# なでたときの反応
");
    reveal_strlit("Haru は夢中で食べている。
Haru はお皿をきれいになめた。
Haru は顔を上げて、また食べはじめた。
# ごはんのときの反応
");
    lemma_pool_starts_with_content(EN_TIPS@);
    lemma_pool_starts_with_content(EN_PAT@);
    lemma_pool_starts_with_content(EN_FEED@);
    lemma_pool_starts_with_content(ZH_TIPS@);
    lemma_pool_starts_with_content(ZH_PAT@);
    lemma_pool_starts_with_content(ZH_FEED@);
    lemma_pool_starts_with_content(JA_TIPS@);
    lemma_pool_starts_with_content(JA_PAT@);
    lemma_pool_starts_with_content(JA_FEED@);
}

/// Each built-in language speaks its own texts: the pack chosen for a
/// language's code holds that language's tips, pat and feed reactions and
/// messages, and no other language's.
pub proof fn law_each_language_has_its_own_texts()
    ensures
        pack_for_code(EN_CODE@) == (Pack {
            code: EN_CODE,
            tips: EN_TIPS,
            pat: EN_PAT,
            feed: EN_FEED,
            messages: EN_MESSAGES,
        }),
        pack_for_code(ZH_CODE@) == (Pack {
            code: ZH_CODE,
            tips: ZH_TIPS,
            pat: ZH_PAT,
            feed: ZH_FEED,
            messages: ZH_MESSAGES,
        }),
        pack_for_code(JA_CODE@) == (Pack {
            code: JA_CODE,
            tips: JA_TIPS,
            pat: JA_PAT,
            feed: JA_FEED,
            messages: JA_MESSAGES,
        }),
{
    law_known_code_selects_its_pack(0);
    law_known_code_selects_its_pack(1);
    law_known_code_selects_its_pack(2);
}

/// A tag whose primary subtag is a built-in code, in any mix of ASCII letter
/// case, selects that language, whether it is the override, a non-blank
/// `HARU_LANG` setting, or the system locale.
pub proof fn law_tag_selects_its_language(
    i: int,
    tag: Seq<char>,
    env_lang: Option<Seq<char>>,
    system_locale: Option<Seq<char>>,
)
    requires
        0 <= i < pack_table().len(),
        is_ascii_text(first_subtag(tag)),
        ascii_lowercase(first_subtag(tag)) == pack_table()[i].code@,
    ensures
        resolved_pack(Some(tag), env_lang, system_locale) == pack_table()[i],
        trim(tag).len() > 0 ==> resolved_pack(None, Some(tag), system_locale) == pack_table()[i],
        resolved_pack(None, None, Some(tag)) == pack_table()[i],
{
    law_known_code_selects_its_pack(i);
}

/// A manual override wins over the `HARU_LANG` setting and the locale.
pub proof fn law_override_wins(
    cli_lang: Seq<char>,
    env_lang: Option<Seq<char>>,
    system_locale: Option<Seq<char>>,
)
    ensures
        resolved_code(Some(cli_lang), env_lang, system_locale) == primary_subtag_of(cli_lang),
{
}

/// Region and script tags are matched by their primary subtag: whatever
/// follows the first `-`, `_` or `.` does not change the language.
pub proof fn law_region_does_not_matter(base: Seq<char>, sep: char, rest: Seq<char>)
    requires
        forall|j: int| 0 <= j < base.len() ==> !is_subtag_sep(#[trigger] base[j]),
        is_subtag_sep(sep),
    ensures
        primary_subtag_of(base + seq![sep] + rest) == primary_subtag_of(base),
{
    let tagged = base + seq![sep] + rest;
    assert forall|j: int| 0 <= j < base.len() implies !is_subtag_sep(#[trigger] tagged[j]) by {
        assert(tagged[j] == base[j]);
    }
    assert(tagged[base.len() as int] == sep);
    lemma_subtag_len(tagged, base.len() as int);
    lemma_subtag_len(base, base.len() as int);
    assert(tagged.take(base.len() as int) =~= base);
    assert(base.take(base.len() as int) =~= base);
}

} // verus!
