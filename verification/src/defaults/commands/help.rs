//! What the help command prints: an overview of the commands in force, or
//! the details of one of them.

use vstd::prelude::*;
use crate::sh::cmd::{Command, CommandView};
use crate::sh::registry::not_found_message;
use crate::sh::{Shell, ShellView};

verus! {

/// The line that presents a command: its name and its description.
pub open spec fn summary<A>(command: CommandView<A>) -> Seq<char> {
    command.name + " - "@ + command.description
}

/// The line that presents a command of a mode: its summary, then the mode's
/// name in round brackets.
pub open spec fn mode_summary<A>(command: CommandView<A>, mode: Seq<char>) -> Seq<char> {
    summary(command) + " ("@ + mode + ")"@
}

/// The lines that present all commands in force: the builtin ones, then
/// those of the active mode.
pub open spec fn overview<A>(shell: ShellView<A>) -> Seq<Seq<char>> {
    Seq::new(shell.builtin.len(), |i: int| summary(shell.builtin[i])) + match shell.mode() {
        Some(mode) => Seq::new(
            mode.commands.len(),
            |i: int| mode_summary(mode.commands[i], mode.name),
        ),
        None => Seq::empty(),
    }
}

/// The items with `separator` between each two of them.
pub open spec fn joined(items: Seq<Seq<char>>, separator: Seq<char>) -> Seq<char>
    decreases items.len(),
{
    if items.len() == 0 {
        Seq::empty()
    } else if items.len() == 1 {
        items[0]
    } else {
        joined(items.drop_last(), separator) + separator + items.last()
    }
}

/// The lines that describe one command: its summary, the aliases besides its
/// name where it has any, and its usage.
pub open spec fn details<A>(command: CommandView<A>) -> Seq<Seq<char>> {
    if command.aliases.len() > 1 {
        seq![
            summary(command),
            "aliases: "@ + joined(command.aliases.skip(1), ", "@),
            "Usage: "@ + command.usage,
        ]
    } else {
        seq![summary(command), "Usage: "@ + command.usage]
    }
}

/// What the help command prints: the overview without an argument, and with
/// one the details of the command that the first argument resolves to.
pub open spec fn help_lines<A>(shell: ShellView<A>, args: Seq<Seq<char>>) -> Result<
    Seq<Seq<char>>,
    Seq<char>,
> {
    if args.len() == 0 {
        Ok(overview(shell))
    } else {
        match shell.resolve(args[0]) {
            Some(i) => Ok(details(shell.commands()[i])),
            None => Err(not_found_message(args[0])),
        }
    }
}

fn summary_of<A>(command: &Command<A>) -> (line: String)
    ensures
        line@ == summary(command@),
{
    let mut line = command.name.clone();
    line.append(" - ");
    line.append(command.description.as_str());
    line
}

fn joined_with(items: &Vec<String>, from: usize, separator: &str) -> (text: String)
    requires
        from <= items.len(),
    ensures
        text@ == joined(items.deep_view().skip(from as int), separator@),
{
    let mut text = String::new();
    let mut i: usize = from;
    while i < items.len()
        invariant
            from <= i <= items.len(),
            text@ == joined(items.deep_view().subrange(from as int, i as int), separator@),
        decreases items.len() - i,
    {
        let ghost before = items.deep_view().subrange(from as int, i as int);
        let ghost after = items.deep_view().subrange(from as int, i + 1);
        assert(after.drop_last() =~= before);
        if i > from {
            text.append(separator);
        }
        text.append(items[i].as_str());
        i += 1;
    }
    text
}

/// Computes what the help command prints.
pub fn help_text<A: Copy>(shell: &Shell<A>, args: &Vec<String>) -> (text: Result<
    Vec<String>,
    String,
>)
    ensures
        match help_lines(shell@, args.deep_view()) {
            Ok(lines) => text matches Ok(printed) && printed.deep_view() == lines,
            Err(reason) => text matches Err(message) && message@ == reason,
        },
{
    let mut lines: Vec<String> = Vec::new();
    if args.len() == 0 {
        let builtin = shell.builtin();
        let mut i: usize = 0;
        while i < builtin.len()
            invariant
                i <= builtin.len(),
                lines.deep_view() == Seq::new(i as nat, |k: int| summary(builtin.deep_view()[k])),
            decreases builtin.len() - i,
        {
            let ghost before = lines.deep_view();
            lines.push(summary_of(&builtin[i]));
            assert(lines.deep_view() =~= before.push(summary(builtin[i as int]@)));
            i += 1;
        }
        let ghost first = lines.deep_view();
        if let Some(mode) = shell.mode() {
            let mut k: usize = 0;
            while k < mode.commands.len()
                invariant
                    k <= mode.commands.len(),
                    lines.deep_view() == first + Seq::new(
                        k as nat,
                        |j: int| mode_summary(mode@.commands[j], mode@.name),
                    ),
                decreases mode.commands.len() - k,
            {
                let ghost before = lines.deep_view();
                let mut line = summary_of(&mode.commands[k]);
                line.append(" (");
                line.append(mode.name.as_str());
                line.append(")");
                lines.push(line);
                assert(lines.deep_view() =~= before.push(
                    mode_summary(mode.commands[k as int]@, mode@.name),
                ));
                k += 1;
            }
        }
        Ok(lines)
    } else {
        let command = match shell.find_command(args[0].as_str()) {
            Ok(command) => command,
            Err(message) => {
                return Err(message);
            },
        };
        lines.push(summary_of(&command));
        if command.aliases.len() > 1 {
            let mut line = "aliases: ".to_owned();
            let rest = joined_with(&command.aliases, 1, ", ");
            line.append(rest.as_str());
            lines.push(line);
        }
        let mut usage = "Usage: ".to_owned();
        usage.append(command.usage.as_str());
        lines.push(usage);
        Ok(lines)
    }
}

} // verus!
