//! The effects that the module asks its surroundings to carry out.
//!
//! Nothing in this crate touches the outside. A function that wants the
//! outside to see something returns an [`Effect`], and whoever embeds the
//! crate carries it out.

use vstd::prelude::*;

verus! {

/// One thing to be done by the surroundings, exactly once.
#[must_use]
#[derive(Debug, PartialEq, Eq)]
pub enum Effect {
    /// One call of the host's display function, with this text as its only
    /// argument.
    Alert(String),
    /// One line on standard output: this text, then a line break.
    PrintLine(String),
}

/// An [`Effect`] as contracts see it: the same variants over sequences of
/// characters.
pub enum EffectView {
    Alert(Seq<char>),
    PrintLine(Seq<char>),
}

impl View for Effect {
    type V = EffectView;

    open spec fn view(&self) -> EffectView {
        match self {
            Effect::Alert(text) => EffectView::Alert(text@),
            Effect::PrintLine(text) => EffectView::PrintLine(text@),
        }
    }
}

} // verus!
