//! haru: a tiny terminal cat companion. It says meow, shows a little ASCII
//! cat, gives a kind tip, and remembers today's pats and feeds.
use vstd::prelude::*;

pub mod cats;
pub mod cli;
pub mod lang;
pub mod packs;
mod random;
pub mod render;
pub mod sounds;
pub mod state;
pub mod text;

verus! {

} // verus!
