//! What the surroundings have seen of the module.

use crate::effect::EffectView;
use vstd::prelude::*;

verus! {

/// Everything that has left the module so far. A world is a value of
/// contracts and proofs; running code holds a [`Recorder`](crate::Recorder)
/// in its place.
pub struct World {
    /// The arguments of the calls of the host's display function, oldest
    /// first.
    pub alerts: Seq<Seq<char>>,
    /// The characters written to standard output, oldest first.
    pub stdout: Seq<char>,
}

impl World {
    /// The world in which nothing has left the module yet.
    pub open spec fn untouched() -> World {
        World { alerts: Seq::empty(), stdout: Seq::empty() }
    }

    /// The world after `effect` has been carried out once.
    ///
    /// An alert adds one call and leaves standard output alone. A line adds
    /// its text and a line break to standard output and calls nothing.
    pub open spec fn after(self, effect: EffectView) -> World {
        match effect {
            EffectView::Alert(text) => World {
                alerts: self.alerts.push(text),
                stdout: self.stdout,
            },
            EffectView::PrintLine(text) => World {
                alerts: self.alerts,
                stdout: self.stdout + text.push('\n'),
            },
        }
    }

    /// The world after `effect` has been carried out `n` times in a row.
    pub open spec fn after_times(self, effect: EffectView, n: nat) -> World
        decreases n,
    {
        if n == 0 {
            self
        } else {
            self.after_times(effect, (n - 1) as nat).after(effect)
        }
    }
}

/// `n` copies of `text`, one after the other.
pub open spec fn copies(text: Seq<char>, n: nat) -> Seq<char>
    decreases n,
{
    if n == 0 {
        Seq::empty()
    } else {
        copies(text, (n - 1) as nat) + text
    }
}

} // verus!
