//! A fluent constructor of commands.

use vstd::prelude::*;
use crate::sh::cmd::{Behavior, Command, CommandView, not_implemented_message};

verus! {

/// An argument in a command's usage text.
pub enum Arg {
    Optional(String),
    Required(String),
}

/// What an optional argument adds to a usage text: a space, then its label in
/// square brackets.
pub open spec fn optional(label: Seq<char>) -> Seq<char> {
    " ["@ + label + "]"@
}

/// What a required argument adds to a usage text: a space, then its label in
/// angle brackets.
pub open spec fn required(label: Seq<char>) -> Seq<char> {
    " <"@ + label + ">"@
}

impl Arg {
    /// What the argument adds to a usage text.
    pub open spec fn usage_suffix(self) -> Seq<char> {
        match self {
            Arg::Optional(label) => optional(label@),
            Arg::Required(label) => required(label@),
        }
    }
}

/// Builds a [`Command`] step by step. The command that it holds always has
/// its own name as its first alias.
pub struct CommandBuilder<A>(Command<A>);

impl<A> View for CommandBuilder<A> {
    type V = CommandView<A>;

    /// The content of the command built so far.
    closed spec fn view(&self) -> CommandView<A> {
        self.0@
    }
}

impl<A> CommandBuilder<A> {
    #[verifier::type_invariant]
    spec fn inv(&self) -> bool {
        self.0@.wf()
    }

    /// Starts a command that answers to `name` only, whose usage is its name
    /// and which does nothing.
    pub fn new(name: &str, description: &str) -> (builder: CommandBuilder<A>)
        ensures
            builder@ == (CommandView::<A> {
                name: name@,
                aliases: seq![name@],
                description: description@,
                usage: name@,
                action: Behavior::Nothing,
            }),
    {
        let mut aliases = Vec::new();
        aliases.push(name.to_owned());
        assert(aliases.deep_view() =~= seq![name@]);
        CommandBuilder(
            Command {
                name: name.to_owned(),
                aliases,
                description: description.to_owned(),
                usage: name.to_owned(),
                action: Behavior::Nothing,
            },
        )
    }

    /// Replaces what the command does by the given action.
    pub fn action(self, action: A) -> (builder: CommandBuilder<A>)
        ensures
            builder@ == (CommandView { action: Behavior::Custom(action), ..self@ }),
    {
        proof {
            use_type_invariant(&self);
        }
        let mut command = self.0;
        command.action = Behavior::Custom(action);
        CommandBuilder(command)
    }

    /// Appends an argument to the usage text.
    pub fn arg(self, arg: Arg) -> (builder: CommandBuilder<A>)
        ensures
            builder@ == (CommandView { usage: self@.usage + arg.usage_suffix(), ..self@ }),
    {
        proof {
            use_type_invariant(&self);
        }
        let mut command = self.0;
        match arg {
            Arg::Optional(label) => {
                command.usage.append(" [");
                command.usage.append(label.as_str());
                command.usage.append("]");
                assert(command.usage@ =~= self@.usage + (" ["@ + label@ + "]"@));
            },
            Arg::Required(label) => {
                command.usage.append(" <");
                command.usage.append(label.as_str());
                command.usage.append(">");
                assert(command.usage@ =~= self@.usage + (" <"@ + label@ + ">"@));
            },
        }
        CommandBuilder(command)
    }

    /// Starts a placeholder: a command that fails whenever it is run.
    pub fn todo(name: &str) -> (builder: CommandBuilder<A>)
        ensures
            builder@ == (CommandView::<A> {
                name: name@,
                aliases: seq![name@],
                description: not_implemented_message(),
                usage: name@,
                action: Behavior::Unimplemented,
            }),
    {
        let mut command = CommandBuilder::new(name, "not yet implemented").0;
        command.action = Behavior::Unimplemented;
        CommandBuilder(command)
    }

    /// Appends one alias. An alias that the command already has is added again.
    pub fn alias(self, alias: &str) -> (builder: CommandBuilder<A>)
        ensures
            builder@ == (CommandView { aliases: self@.aliases.push(alias@), ..self@ }),
    {
        proof {
            use_type_invariant(&self);
        }
        let mut command = self.0;
        command.aliases.push(alias.to_owned());
        assert(command.aliases.deep_view() =~= self@.aliases.push(alias@));
        CommandBuilder(command)
    }

    /// Appends several aliases in the order given.
    pub fn aliases(self, aliases: Vec<&str>) -> (builder: CommandBuilder<A>)
        ensures
            builder@ == (CommandView {
                aliases: self@.aliases + aliases.deep_view(),
                ..self@
            }),
    {
        proof {
            use_type_invariant(&self);
        }
        let mut command = self.0;
        let mut i: usize = 0;
        while i < aliases.len()
            invariant
                i <= aliases.len(),
                command@ == (CommandView {
                    aliases: self@.aliases + aliases.deep_view().take(i as int),
                    ..self@
                }),
            decreases aliases.len() - i,
        {
            let ghost before = command.aliases.deep_view();
            command.aliases.push(aliases[i].to_owned());
            assert(command.aliases.deep_view() =~= before.push(aliases[i as int]@));
            assert(self@.aliases + aliases.deep_view().take(i + 1) =~= (self@.aliases
                + aliases.deep_view().take(i as int)).push(aliases[i as int]@));
            i += 1;
        }
        assert(aliases.deep_view().take(i as int) =~= aliases.deep_view());
        CommandBuilder(command)
    }

    /// Hands the command out.
    pub fn build(self) -> (command: Command<A>)
        ensures
            command@ == self@,
            command@.wf(),
    {
        proof {
            use_type_invariant(&self);
        }
        self.0
    }
}

} // verus!
