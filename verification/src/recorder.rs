//! Surroundings that write down what they are asked to do.
//!
//! A [`Recorder`] stands where a host and a terminal would stand. It carries
//! out an effect by keeping it, so that what the module asked for can be read
//! back afterwards.

use crate::effect::Effect;
use crate::world::World;
use vstd::prelude::*;

verus! {

/// Surroundings that keep every effect they carry out. Seen through `@`, a
/// recorder is the [`World`] that real surroundings would have seen.
pub struct Recorder {
    alerts: Vec<String>,
    stdout: String,
}

impl View for Recorder {
    type V = World;

    closed spec fn view(&self) -> World {
        World { alerts: self.alerts@.map_values(|text: String| text@), stdout: self.stdout@ }
    }
}

impl Recorder {
    /// Surroundings that have seen nothing yet.
    pub fn new() -> (recorder: Recorder)
        ensures
            recorder@ == World::untouched(),
    {
        let recorder = Recorder { alerts: Vec::new(), stdout: String::new() };
        assert(recorder@.alerts =~= Seq::empty());
        recorder
    }

    /// Carries out `effect` once: an alert is added to the calls, a line is
    /// added to standard output together with its line break.
    pub fn perform(&mut self, effect: Effect)
        ensures
            final(self)@ == old(self)@.after(effect@),
    {
        match effect {
            Effect::Alert(text) => {
                self.alerts.push(text);
                assert(self@.alerts =~= old(self)@.alerts.push(text@));
            },
            Effect::PrintLine(text) => {
                self.stdout.append(text.as_str());
                self.stdout.append("\n");
                proof {
                    reveal_strlit("\n");
                }
                assert(self@.stdout =~= old(self)@.stdout + text@.push('\n'));
            },
        }
    }

    /// The arguments of the calls of the host's display function so far,
    /// oldest first.
    pub fn alerts(&self) -> (texts: &Vec<String>)
        ensures
            texts@.len() == self@.alerts.len(),
            forall|i: int| 0 <= i < texts@.len() ==> #[trigger] texts@[i]@ == self@.alerts[i],
    {
        &self.alerts
    }

    /// Everything written to standard output so far.
    pub fn stdout(&self) -> (text: &str)
        ensures
            text@ == self@.stdout,
    {
        self.stdout.as_str()
    }
}

} // verus!
