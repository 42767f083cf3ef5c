//! A greeting for a host, and a line for standard output.
//!
//! The crate decides what is to be said and to whom; it says nothing itself.
//! [`greet`] and [`entry`] each return the one [`Effect`] that their caller is
//! to carry out. [`World`] says what the surroundings see once an effect has
//! been carried out, and the module `laws` proves what follows from that for
//! the two functions.

pub mod effect;
pub mod laws;
pub mod recorder;
pub mod world;

pub use effect::{Effect, EffectView};
pub use recorder::Recorder;
pub use world::World;

use vstd::prelude::*;

verus! {

/// The text that [`greet`] hands to the host's display function.
pub const GREETING: &'static str = "Hello, wasm-game-of-life!";

/// The line that [`entry`] puts on standard output, without its line break.
pub const HELLO: &'static str = "Hello, world!";

/// What the function that the host calls does: one call of the host's
/// display function, with [`GREETING`] as its argument.
///
/// Takes nothing and keeps nothing, so every call returns the same effect.
pub fn greet() -> (effect: Effect)
    ensures
        effect@ == EffectView::Alert(GREETING@),
{
    Effect::Alert(GREETING.to_owned())
}

/// What the native entry point does: it builds the text [`HELLO`] and has it
/// written to standard output as one line.
///
/// Takes nothing and keeps nothing, so every call returns the same effect.
pub fn entry() -> (effect: Effect)
    ensures
        effect@ == EffectView::PrintLine(HELLO@),
{
    let x = HELLO.to_owned();
    Effect::PrintLine(x)
}

} // verus!
