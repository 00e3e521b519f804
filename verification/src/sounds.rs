//! The little noises Haru makes, one set per kind of visit.
use vstd::prelude::*;

use crate::random::choose_one;

verus! {

/// The little noise Haru makes, chosen to fit the action.
#[derive(Debug, Clone, Copy, PartialEq, Eq, Structural)]
pub enum Sound {
    Summon,
    Pat,
    Feed,
}

/// The noises for each kind of visit.
pub open spec fn sound_set(sound: Sound) -> Seq<&'static str> {
    match sound {
        Sound::Summon => seq![
            "meow.", "mrrp.", "mew.", "meow?", "mrow.", "nya.", "prrp?", "meow!", "mrrl...",
            "mew mew.",
        ],
        Sound::Pat => seq![
            "purr...", "prrr.", "*purr*", "purrrr.", "chirp.", "mrrp!", "*happy purr*", "brrrp.",
            "*leans in*", "trrrl.",
        ],
        Sound::Feed => seq![
            "munch munch.", "nom nom.", "crunch crunch.", "om nom.", "*chomp*", "munch.", "nom.",
            "*happy chewing*", "gnaw gnaw.", "mlem.",
        ],
    }
}

/// The noises for `sound`.
pub fn sounds_for(sound: Sound) -> (r: Vec<&'static str>)
    ensures
        r@ == sound_set(sound),
{
    match sound {
        Sound::Summon => vec![
            "meow.", "mrrp.", "mew.", "meow?", "mrow.", "nya.", "prrp?", "meow!", "mrrl...",
            "mew mew.",
        ],
        Sound::Pat => vec![
            "purr...", "prrr.", "*purr*", "purrrr.", "chirp.", "mrrp!", "*happy purr*", "brrrp.",
            "*leans in*", "trrrl.",
        ],
        Sound::Feed => vec![
            "munch munch.", "nom nom.", "crunch crunch.", "om nom.", "*chomp*", "munch.", "nom.",
            "*happy chewing*", "gnaw gnaw.", "mlem.",
        ],
    }
}

/// Pick a random sound for the given action: one of its noises.
pub fn random_sound(sound: Sound) -> (r: &'static str)
    ensures
        sound_set(sound).contains(r),
{
    let set = sounds_for(sound);
    match choose_one(set.as_slice()) {
        Some(s) => *s,
        None => "meow.",
    }
}

} // verus!
