//! The builtin commands that a shell starts with. Their actions are the
//! program's: each prints what the library computes for it.

use vstd::prelude::*;
use crate::sh::cmd::builder::{Arg, CommandBuilder, optional};
use crate::sh::cmd::{Behavior, Command, CommandView};

pub mod debug;
pub mod help;
pub mod mode;

pub use debug::{debug_report_text, debug_text, decimal_text};
pub use help::help_text;
pub use mode::mode_text;

verus! {

/// The content of the command that prints the shell's state.
pub open spec fn debug_view<A>(action: A) -> CommandView<A> {
    CommandView {
        name: "debug"@,
        aliases: seq!["debug"@, "dbg"@, "!"@],
        description: "print debug information"@,
        usage: "debug"@ + optional("cmd"@),
        action: Behavior::Custom(action),
    }
}

/// The content of the command that lists and describes commands.
pub open spec fn help_view<A>(action: A) -> CommandView<A> {
    CommandView {
        name: "help"@,
        aliases: seq!["help"@, "?"@],
        description: "print help information"@,
        usage: "help"@ + optional("command"@),
        action: Behavior::Custom(action),
    }
}

/// The content of the command that prints or switches the mode.
pub open spec fn mode_view<A>(action: A) -> CommandView<A> {
    CommandView {
        name: "mode"@,
        aliases: seq!["mode"@],
        description: "change or print the current mode"@,
        usage: "mode"@ + optional("name | none"@),
        action: Behavior::Custom(action),
    }
}

/// The content of the default builtin commands.
pub open spec fn all_view<A>(debug: A, help: A, mode: A) -> Seq<CommandView<A>> {
    seq![debug_view(debug), help_view(help), mode_view(mode)]
}

/// The default builtin commands, each with the action given for it.
pub fn all<A>(debug: A, help: A, mode: A) -> (commands: Vec<Command<A>>)
    ensures
        commands.deep_view() == all_view(debug, help, mode),
{
    let mut commands = Vec::new();
    commands.push(self::debug(debug));
    commands.push(self::help(help));
    commands.push(self::mode(mode));
    commands
}

fn debug<A>(action: A) -> (command: Command<A>)
    ensures
        command@ == debug_view(action),
{
    let aliases = vec!["dbg", "!"];
    let command = CommandBuilder::new("debug", "print debug information").action(action).arg(
        Arg::Optional("cmd".to_owned()),
    ).aliases(aliases).build();
    assert(command@.aliases =~= seq!["debug"@, "dbg"@, "!"@]);
    command
}

fn help<A>(action: A) -> (command: Command<A>)
    ensures
        command@ == help_view(action),
{
    let command = CommandBuilder::new("help", "print help information").action(action).arg(
        Arg::Optional("command".to_owned()),
    ).alias("?").build();
    assert(command@.aliases =~= seq!["help"@, "?"@]);
    command
}

fn mode<A>(action: A) -> (command: Command<A>)
    ensures
        command@ == mode_view(action),
{
    CommandBuilder::new("mode", "change or print the current mode").action(action).arg(
        Arg::Optional("name | none".to_owned()),
    ).build()
}

} // verus!
