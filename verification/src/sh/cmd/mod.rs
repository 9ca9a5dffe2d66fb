//! Commands: named, aliased units of behavior.

use vstd::prelude::*;
use crate::sh::{Shell, ShellView};

pub mod builder;

verus! {

/// The behavior that a shell's commands run, supplied by the embedding program.
///
/// Nothing is promised of `invoke`: it may change the shell through the
/// shell's own operations and report success or a failure message.
pub trait Action: Copy {
    fn invoke(&self, shell: &mut Shell<Self>, args: Vec<String>) -> (outcome: Result<(), String>);
}

/// What running a command does.
#[derive(Debug, Clone, Copy, PartialEq)]
pub enum Behavior<A> {
    /// Succeeds and leaves the shell as it is.
    Nothing,
    /// Fails with the message of [`not_implemented_message`].
    Unimplemented,
    /// Hands the shell and the arguments to the program's action.
    Custom(A),
}

/// A command of the registry.
#[derive(Debug, PartialEq)]
pub struct Command<A> {
    pub name: String,
    pub aliases: Vec<String>,
    pub description: String,
    pub usage: String,
    pub action: Behavior<A>,
}

/// The mathematical content of a [`Command`].
pub struct CommandView<A> {
    pub name: Seq<char>,
    pub aliases: Seq<Seq<char>>,
    pub description: Seq<char>,
    pub usage: Seq<char>,
    pub action: Behavior<A>,
}

impl<A> CommandView<A> {
    /// The command answers to `name`: it is one of its aliases.
    pub open spec fn answers_to(self, name: Seq<char>) -> bool {
        self.aliases.contains(name)
    }

    /// The command's own name leads its aliases.
    pub open spec fn wf(self) -> bool {
        self.aliases.len() > 0 && self.aliases[0] == self.name
    }
}

impl<A> View for Command<A> {
    type V = CommandView<A>;

    open spec fn view(&self) -> CommandView<A> {
        CommandView {
            name: self.name@,
            aliases: self.aliases.deep_view(),
            description: self.description@,
            usage: self.usage@,
            action: self.action,
        }
    }
}

impl<A> DeepView for Command<A> {
    type V = CommandView<A>;

    open spec fn deep_view(&self) -> CommandView<A> {
        self@
    }
}

impl<A: Copy> Clone for Command<A> {
    fn clone(&self) -> (copy: Self)
        ensures
            copy@ == self@,
    {
        Command {
            name: self.name.clone(),
            aliases: self.aliases.clone(),
            description: self.description.clone(),
            usage: self.usage.clone(),
            action: self.action,
        }
    }
}

impl<A> Command<A> {
    /// Tells whether `name` is one of the command's aliases, compared exactly.
    pub fn answers_to(&self, name: &str) -> (found: bool)
        ensures
            found == self@.answers_to(name@),
    {
        let wanted = name.to_owned();
        let mut i: usize = 0;
        while i < self.aliases.len()
            invariant
                i <= self.aliases.len(),
                wanted@ == name@,
                forall|j: int| 0 <= j < i ==> self.aliases.deep_view()[j] != name@,
            decreases self.aliases.len() - i,
        {
            if self.aliases[i] == wanted {
                assert(self.aliases.deep_view()[i as int] == name@);
                return true;
            }
            i += 1;
        }
        false
    }
}

/// The message with which a placeholder command fails.
pub open spec fn not_implemented_message() -> Seq<char> {
    "not yet implemented"@
}

/// What running a behavior leaves behind. The two behaviors of the library
/// leave the shell as it was, the first with success and the second with the
/// message of [`not_implemented_message`]. Of a program's action nothing is
/// known.
pub open spec fn ran<A>(
    action: Behavior<A>,
    before: ShellView<A>,
    after: ShellView<A>,
    outcome: Result<(), String>,
) -> bool {
    match action {
        Behavior::Nothing => after == before && outcome is Ok,
        Behavior::Unimplemented => after == before && (outcome matches Err(message)
            && message@ == not_implemented_message()),
        Behavior::Custom(_) => true,
    }
}

impl<A: Action> Command<A> {
    /// Runs the command against the shell with the given arguments.
    pub fn run(&self, shell: &mut Shell<A>, args: Vec<String>) -> (outcome: Result<(), String>)
        ensures
            ran(self.action, old(shell)@, final(shell)@, outcome),
            final(shell)@.wf(),
    {
        let outcome = match self.action {
            Behavior::Nothing => Ok(()),
            Behavior::Unimplemented => Err("not yet implemented".to_owned()),
            Behavior::Custom(action) => action.invoke(shell, args),
        };
        proof {
            use_type_invariant(&*shell);
        }
        outcome
    }
}

} // verus!
