//! The built-in language packs: per language a pool of tips, of pat and of
//! feed flavor lines (one per line, `#` starts a comment), and the UI
//! messages as a JSON object of strings.
use vstd::prelude::*;

verus! {

/// The language used when no pack matches.
pub const DEFAULT_CODE: &'static str = "en";

pub const EN_CODE: &'static str = "en";

pub const EN_TIPS: &'static str = "drink water before debugging. the bug can wait, your kidneys cannot.
stand up and stretch. your spine is not a question mark.
look at something far away for twenty seconds.
commit early, commit often, then take a break.
you are allowed to stop for today.
read the error message once more, slowly.
a short walk often fixes what an hour of staring cannot.
# tips, one per line. lines starting with '#' are ignored.
";

pub const EN_PAT: &'static str = "Haru leans into your hand.
Haru closes its eyes, very pleased.
Haru does a slow blink at you.
Haru purrs like a tiny engine.
# reactions to a pat
";

pub const EN_FEED: &'static str = "Haru eats with great focus.
Haru licks the bowl clean.
Haru looks up, then goes back to eating.
Haru approves of this meal.
# reactions to a feed
";

pub const EN_MESSAGES: &'static str = "{
  \"tip_line\": \"tip: {tip}\",
  \"unit_one\": \"time\",
  \"unit_other\": \"times\",
  \"patted\": \"you patted Haru {n} {unit} today.\",
  \"fed\": \"you fed Haru {n} {unit} today.\",
  \"status\": \"Haru's status\\n  mood: {mood}\\n  pats today: {pats}\\n  feeds today: {feeds}\\n  total pats: {total_pats}\\n  total feeds: {total_feeds}\\n  last seen: {last_seen}\",
  \"never\": \"never\",
  \"mood_waiting\": \"waiting\",
  \"mood_happy\": \"happy\",
  \"mood_purring\": \"purring\",
  \"mood_spoiled\": \"spoiled\"
}
";

pub const ZH_CODE: &'static str = "zh";

pub const ZH_TIPS: &'static str = "调试之前先喝口水。bug 可以等，你的肾不能等。
站起来伸个懒腰吧。
看看远处，让眼睛休息二十秒。
今天已经很努力了，可以停下来了。
再慢慢读一遍报错信息。
# 小贴士，每行一条。以 '#' 开头的行会被忽略。
";

pub const ZH_PAT: &'static str = "Haru 把头靠在你的手上。
Haru 眯起了眼睛，很满足。
Haru 对你慢慢地眨了眨眼。
# 摸摸时的反应
";

pub const ZH_FEED: &'static str = "Haru 吃得很专心。
Haru 把碗舔得干干净净。
Haru 抬头看了你一眼，又继续吃。
# 喂食时的反应
";

pub const ZH_MESSAGES: &'static str = "{
  \"tip_line\": \"小贴士：{tip}\",
  \"unit_one\": \"次\",
  \"unit_other\": \"次\",
  \"patted\": \"今天你摸了 Haru {n} {unit}。\",
  \"fed\": \"今天你喂了 Haru {n} {unit}。\",
  \"status\": \"Haru 状态\\n  心情：{mood}\\n  今天摸摸：{pats}\\n  今天喂食：{feeds}\\n  总共摸摸：{total_pats}\\n  总共喂食：{total_feeds}\\n  上次见面：{last_seen}\",
  \"never\": \"从未\",
  \"mood_waiting\": \"等你中\",
  \"mood_happy\": \"开心\",
  \"mood_purring\": \"呼噜噜\",
  \"mood_spoiled\": \"被宠坏了\"
}
";

pub const JA_CODE: &'static str = "ja";

pub const JA_TIPS: &'static str = "デバッグの前に水を飲もう。バグは待てるけど、腎臓は待てない。
立ち上がって、のびをしよう。
遠くを二十秒ながめて、目を休めよう。
今日はもう十分がんばったよ。
エラーメッセージをもう一度ゆっくり読もう。
# ヒント。一行にひとつ。'#' で始まる行は無視されます。
";

pub const JA_PAT: &'static str = "Haru はあなたの手にすりよった。
Haru は目を細めて満足そう。
Haru はゆっくりまばたきをした。
# なでたときの反応
";

pub const JA_FEED: &'static str = "Haru は夢中で食べている。
Haru はお皿をきれいになめた。
Haru は顔を上げて、また食べはじめた。
# ごはんのときの反応
";

pub const JA_MESSAGES: &'static str = "{
  \"tip_line\": \"ヒント：{tip}\",
  \"unit_one\": \"回\",
  \"unit_other\": \"回\",
  \"patted\": \"今日は Haru を {n} {unit}なでました。\",
  \"fed\": \"今日は Haru に {n} {unit}ごはんをあげました。\",
  \"status\": \"Haru のようす\\n  きもち：{mood}\\n  今日なでた回数：{pats}\\n  今日のごはん：{feeds}\\n  なでた合計：{total_pats}\\n  ごはんの合計：{total_feeds}\\n  最後に会った日：{last_seen}\",
  \"never\": \"まだ\",
  \"mood_waiting\": \"まちぼうけ\",
  \"mood_happy\": \"ごきげん\",
  \"mood_purring\": \"ごろごろ\",
  \"mood_spoiled\": \"あまえんぼう\"
}
";

/// One built-in language: its code, its three line pools and its messages.
#[derive(Debug, Clone, Copy)]
pub struct Pack {
    pub code: &'static str,
    pub tips: &'static str,
    pub pat: &'static str,
    pub feed: &'static str,
    pub messages: &'static str,
}

/// The built-in packs, in order: English, Chinese, Japanese.
pub open spec fn pack_table() -> Seq<Pack> {
    seq![
        Pack { code: EN_CODE, tips: EN_TIPS, pat: EN_PAT, feed: EN_FEED, messages: EN_MESSAGES },
        Pack { code: ZH_CODE, tips: ZH_TIPS, pat: ZH_PAT, feed: ZH_FEED, messages: ZH_MESSAGES },
        Pack { code: JA_CODE, tips: JA_TIPS, pat: JA_PAT, feed: JA_FEED, messages: JA_MESSAGES },
    ]
}

/// The built-in packs.
pub fn packs() -> (r: Vec<Pack>)
    ensures
        r@ == pack_table(),
{
    vec![
        Pack { code: EN_CODE, tips: EN_TIPS, pat: EN_PAT, feed: EN_FEED, messages: EN_MESSAGES },
        Pack { code: ZH_CODE, tips: ZH_TIPS, pat: ZH_PAT, feed: ZH_FEED, messages: ZH_MESSAGES },
        Pack { code: JA_CODE, tips: JA_TIPS, pat: JA_PAT, feed: JA_FEED, messages: JA_MESSAGES },
    ]
}

} // verus!
