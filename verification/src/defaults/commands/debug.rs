//! What the debug command prints: the shell's state, the number of its
//! builtin commands and its active mode.

use vstd::prelude::*;
use crate::sh::mode::{Mode, ModeView};
use crate::sh::{Shell, ShellView, State};

verus! {

/// The decimal digit for a number below ten: the character that many places
/// after `0`, whose code is 48.
pub open spec fn digit(d: nat) -> char {
    (48 + d) as u8 as char
}

/// The decimal numeral of a number, without leading zeros.
pub open spec fn decimal(n: nat) -> Seq<char>
    decreases n,
{
    if n < 10 {
        seq![digit(n)]
    } else {
        decimal(n / 10).push(digit(n % 10))
    }
}

/// Writes a number as a decimal numeral.
pub fn decimal_text(n: usize) -> (text: String)
    ensures
        text@ == decimal(n as nat),
    decreases n,
{
    let last = (48 + (n % 10) as u8) as char;
    if n < 10 {
        let mut text = String::new();
        text.push(last);
        text
    } else {
        let mut text = decimal_text(n / 10);
        text.push(last);
        text
    }
}

/// A string as `std::fmt::Debug` writes it: between double quotes, with the
/// characters that need it escaped.
pub uninterp spec fn debug_quoted(text: Seq<char>) -> Seq<char>;

/// Formats `text` with `{:?}`, the `Debug` implementation of `str`.
///
/// The escapes follow tables of the standard library, so the result is only
/// named here. It is a function of the text alone.
#[verifier::external_body]
fn quoted(text: &str) -> (out: String)
    ensures
        out@ == debug_quoted(text@),
{
    format!("{:?}", text)
}

/// The line that shows a state, given the quoted form of a failure's
/// message: `Ok` without a failure, else the quoted message inside `Error(`
/// and `)`.
pub open spec fn state_line(quoted_failure: Option<Seq<char>>) -> Seq<char> {
    match quoted_failure {
        None => "state: Ok"@,
        Some(quoted) => "state: Error("@ + quoted + ")"@,
    }
}

/// The lines that show the active mode: its name, its description between
/// single quotes and the number of its commands, or a note that there is
/// none.
pub open spec fn mode_report<A>(mode: Option<ModeView<A>>) -> Seq<Seq<char>> {
    match mode {
        Some(mode) => seq![
            "mode: "@ + mode.name,
            "  '"@ + mode.description + "'"@,
            "  commands: "@ + decimal(mode.commands.len()),
        ],
        None => seq!["no mode"@],
    }
}

/// What the debug command prints of a shell, given the quoted form of the
/// message in its state: the state, the number of builtin commands and the
/// active mode.
pub open spec fn debug_report<A>(
    quoted_failure: Option<Seq<char>>,
    builtin: nat,
    mode: Option<ModeView<A>>,
) -> Seq<Seq<char>> {
    seq![state_line(quoted_failure), "builtin: "@ + decimal(builtin)] + mode_report(mode)
}

/// What the debug command prints: the report of the shell without an
/// argument, and nothing with one.
pub open spec fn debug_lines<A>(shell: ShellView<A>, args: Seq<Seq<char>>) -> Seq<Seq<char>> {
    if args.len() == 0 {
        debug_report(
            match shell.state {
                Some(message) => Some(debug_quoted(message)),
                None => None,
            },
            shell.builtin.len(),
            shell.mode(),
        )
    } else {
        Seq::empty()
    }
}

/// Computes the report of the debug command from the quoted form of the
/// message in the state, the number of builtin commands and the active mode.
pub fn debug_report_text<A>(
    quoted_failure: Option<String>,
    builtin: usize,
    mode: Option<&Mode<A>>,
) -> (lines: Vec<String>)
    ensures
        lines.deep_view() == debug_report(
            match quoted_failure {
                Some(quoted) => Some(quoted@),
                None => None,
            },
            builtin as nat,
            match mode {
                Some(mode) => Some(mode@),
                None => None,
            },
        ),
{
    let mut lines: Vec<String> = Vec::new();
    let state = match quoted_failure {
        Some(quoted) => {
            let mut line = "state: Error(".to_owned();
            line.append(quoted.as_str());
            line.append(")");
            line
        },
        None => "state: Ok".to_owned(),
    };
    lines.push(state);
    let mut count = "builtin: ".to_owned();
    count.append(decimal_text(builtin).as_str());
    lines.push(count);
    match mode {
        Some(mode) => {
            let mut name = "mode: ".to_owned();
            name.append(mode.name.as_str());
            lines.push(name);
            let mut description = "  '".to_owned();
            description.append(mode.description.as_str());
            description.append("'");
            lines.push(description);
            let mut commands = "  commands: ".to_owned();
            commands.append(decimal_text(mode.commands.len()).as_str());
            lines.push(commands);
        },
        None => {
            lines.push("no mode".to_owned());
        },
    }
    lines
}

/// Computes what the debug command prints.
pub fn debug_text<A>(shell: &Shell<A>, args: &Vec<String>) -> (lines: Vec<String>)
    ensures
        lines.deep_view() == debug_lines(shell@, args.deep_view()),
{
    if args.len() > 0 {
        let lines: Vec<String> = Vec::new();
        return lines;
    }
    let quoted_failure = match shell.state() {
        State::Error(message) => Some(quoted(message.as_str())),
        State::Okay => None,
    };
    debug_report_text(quoted_failure, shell.builtin().len(), shell.mode())
}

} // verus!
