//! What holds of [`greet`](crate::greet) and [`entry`](crate::entry) in every
//! world, stated over the effects that their contracts name.

use crate::effect::EffectView;
use crate::world::{copies, World};
use crate::{GREETING, HELLO};
use vstd::prelude::*;

verus! {

/// Carrying out what `greet` returns calls the host's display function
/// exactly once, with the text `Hello, wasm-game-of-life!`, and writes
/// nothing to standard output.
pub proof fn greet_alerts_once(w: World)
    ensures
        w.after(EffectView::Alert(GREETING@)).alerts == w.alerts.push(
            "Hello, wasm-game-of-life!"@,
        ),
        w.after(EffectView::Alert(GREETING@)).stdout == w.stdout,
{
}

/// Carrying out what `entry` returns writes exactly the line `Hello, world!`
/// and its line break to standard output, and calls nothing on the host.
pub proof fn entry_prints_one_line(w: World)
    ensures
        w.after(EffectView::PrintLine(HELLO@)).stdout == w.stdout + "Hello, world!\n"@,
        w.after(EffectView::PrintLine(HELLO@)).alerts == w.alerts,
{
    hello_line();
}

/// However often `greet` is invoked, each invocation adds the same single
/// call to what the host has seen, whatever it had seen before; nothing else
/// changes.
pub proof fn greet_repeats(w: World, n: nat)
    ensures
        w.after_times(EffectView::Alert(GREETING@), n).alerts == w.alerts + Seq::new(
            n,
            |i: int| GREETING@,
        ),
        w.after_times(EffectView::Alert(GREETING@), n).stdout == w.stdout,
    decreases n,
{
    if n > 0 {
        greet_repeats(w, (n - 1) as nat);
    }
}

/// However often `entry` is invoked, each invocation adds the same single
/// line to standard output, whatever had been written before; nothing else
/// changes.
pub proof fn entry_repeats(w: World, n: nat)
    ensures
        w.after_times(EffectView::PrintLine(HELLO@), n).stdout == w.stdout + copies(
            "Hello, world!\n"@,
            n,
        ),
        w.after_times(EffectView::PrintLine(HELLO@), n).alerts == w.alerts,
    decreases n,
{
    if n > 0 {
        entry_repeats(w, (n - 1) as nat);
        hello_line();
    }
}

/// The text of `entry` followed by a line break is the line `Hello, world!`.
proof fn hello_line()
    ensures
        HELLO@.push('\n') == "Hello, world!\n"@,
{
    reveal_strlit("Hello, world!");
    reveal_strlit("Hello, world!\n");
}

} // verus!
