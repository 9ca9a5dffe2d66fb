//! The bookmark mode.

use vstd::prelude::*;
use crate::sh::cmd::builder::CommandBuilder;
use crate::sh::cmd::{Behavior, Command, CommandView, not_implemented_message};
use crate::sh::mode::{Mode, ModeView};

verus! {

/// The content of a placeholder command called `name`.
pub open spec fn placeholder<A>(name: Seq<char>) -> CommandView<A> {
    CommandView {
        name,
        aliases: seq![name],
        description: not_implemented_message(),
        usage: name,
        action: Behavior::Unimplemented,
    }
}

/// The content of the bookmark mode: two commands, `add` and `list`, both
/// placeholders.
pub open spec fn mode_view<A>() -> ModeView<A> {
    ModeView {
        name: "bookmark"@,
        description: "Bookmark mode"@,
        commands: seq![placeholder("add"@), placeholder("list"@)],
    }
}

/// The bookmark mode.
pub fn mode<A>() -> (mode: Mode<A>)
    ensures
        mode@ == mode_view::<A>(),
{
    let mut commands = Vec::new();
    commands.push(self::add());
    commands.push(self::list());
    assert(commands.deep_view() =~= seq![placeholder::<A>("add"@), placeholder::<A>("list"@)]);
    Mode { name: "bookmark".to_owned(), description: "Bookmark mode".to_owned(), commands }
}

fn add<A>() -> (command: Command<A>)
    ensures
        command@ == placeholder::<A>("add"@),
{
    CommandBuilder::todo("add").build()
}

fn list<A>() -> (command: Command<A>)
    ensures
        command@ == placeholder::<A>("list"@),
{
    CommandBuilder::todo("list").build()
}

} // verus!
