//! The little ASCII cats, one set per pose.
use vstd::prelude::*;

use crate::random::choose_one;

verus! {

/// Which pose to draw. Poses map to actions, not to moods.
#[derive(Debug, Clone, Copy, PartialEq, Eq, Structural)]
pub enum Pose {
    Neutral,
    Pat,
    Feed,
}

/// The cats drawn for each pose.
pub open spec fn cat_set(pose: Pose) -> Seq<&'static str> {
    match pose {
        Pose::Neutral => seq![
            " /\\_/\\\n( o.o )\n > ^ <",
            " /\\_/\\\n( -.- )\n > ^ <",
            " /\\_/\\\n( o.o )\n z z z",
            " /\\_/\\\n( ^.^ )\n > ^ <",
            " /\\_/\\\n( o_o )\n > . <",
            " /\\_/\\\n( u.u )\n > ^ <",
            " /\\_/\\\n( o.- )\n > ^ <",
        ],
        Pose::Pat => seq![
            " /\\_/\\\n( =^.^= )\n /  > <3",
            " /\\_/\\\n( ^w^ )\n /  >  ",
            " /\\_/\\\n( >w< )\n /  > <3",
            " /\\_/\\\n( ^-^ )\n (  > <3",
            " /\\_/\\\n( =^w^= )\n /  >  ",
        ],
        Pose::Feed => seq![
            " /\\_/\\\n( o.o )\n /  > *",
            " /\\_/\\\n( =w= )\n /  > ~",
            " /\\_/\\\n( ^.^ )\n /  > @",
            " /\\_/\\\n( -.- )\n /  > =",
            " /\\_/\\\n( o.o )\n (  > o",
        ],
    }
}

/// The cats for `pose`.
pub fn cats_for(pose: Pose) -> (r: Vec<&'static str>)
    ensures
        r@ == cat_set(pose),
{
    match pose {
        Pose::Neutral => vec![
            " /\\_/\\\n( o.o )\n > ^ <",
            " /\\_/\\\n( -.- )\n > ^ <",
            " /\\_/\\\n( o.o )\n z z z",
            " /\\_/\\\n( ^.^ )\n > ^ <",
            " /\\_/\\\n( o_o )\n > . <",
            " /\\_/\\\n( u.u )\n > ^ <",
            " /\\_/\\\n( o.- )\n > ^ <",
        ],
        Pose::Pat => vec![
            " /\\_/\\\n( =^.^= )\n /  > <3",
            " /\\_/\\\n( ^w^ )\n /  >  ",
            " /\\_/\\\n( >w< )\n /  > <3",
            " /\\_/\\\n( ^-^ )\n (  > <3",
            " /\\_/\\\n( =^w^= )\n /  >  ",
        ],
        Pose::Feed => vec![
            " /\\_/\\\n( o.o )\n /  > *",
            " /\\_/\\\n( =w= )\n /  > ~",
            " /\\_/\\\n( ^.^ )\n /  > @",
            " /\\_/\\\n( -.- )\n /  > =",
            " /\\_/\\\n( o.o )\n (  > o",
        ],
    }
}

/// Pick a random cat for the given pose: one of the pose's cats.
pub fn random_cat(pose: Pose) -> (r: &'static str)
    ensures
        cat_set(pose).contains(r),
{
    let set = cats_for(pose);
    match choose_one(set.as_slice()) {
        Some(cat) => *cat,
        None => " /\\_/\\\n( o.o )\n > ^ <",
    }
}

} // verus!
