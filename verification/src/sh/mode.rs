//! Modes: named bundles of commands, at most one of them active.

use vstd::prelude::*;
use crate::sh::cmd::{Command, CommandView};

verus! {

/// A switchable bundle of commands layered on top of the builtin ones.
#[derive(Debug, PartialEq)]
pub struct Mode<A> {
    pub name: String,
    pub description: String,
    pub commands: Vec<Command<A>>,
}

/// The mathematical content of a [`Mode`].
pub struct ModeView<A> {
    pub name: Seq<char>,
    pub description: Seq<char>,
    pub commands: Seq<CommandView<A>>,
}

impl<A> View for Mode<A> {
    type V = ModeView<A>;

    open spec fn view(&self) -> ModeView<A> {
        ModeView {
            name: self.name@,
            description: self.description@,
            commands: self.commands.deep_view(),
        }
    }
}

impl<A> DeepView for Mode<A> {
    type V = ModeView<A>;

    open spec fn deep_view(&self) -> ModeView<A> {
        self@
    }
}

} // verus!
