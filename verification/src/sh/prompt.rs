//! The prompt: an indicator of the shell's state, colored for the terminal.

use vstd::prelude::*;
use colored::Colorize;
use crate::sh::{Shell, State};

verus! {

/// `text` between the escape sequence that selects the style `code` and the
/// one that resets all styles.
pub open spec fn styled(code: Seq<char>, text: Seq<char>) -> Seq<char> {
    "\x1B["@ + code + "m"@ + text + "\x1B[0m"@
}

/// What painting `text` with the foreground color `code` may give: the text
/// itself where colors are switched off, and the styled text where they are
/// on.
pub open spec fn painted(code: Seq<char>, text: Seq<char>, out: Seq<char>) -> bool {
    out == text || out == styled(code, text)
}

/// The indicator shown for a state: `! ` after a failure, `> ` otherwise.
pub open spec fn indicator(state: Option<Seq<char>>) -> Seq<char> {
    if state is Some {
        "! "@
    } else {
        "> "@
    }
}

/// The code of the indicator's color: red after a failure, green otherwise.
pub open spec fn indicator_color(state: Option<Seq<char>>) -> Seq<char> {
    if state is Some {
        "31"@
    } else {
        "32"@
    }
}

/// Colors `text` red with `colored::Colorize::red` and renders it with
/// `to_string`.
///
/// Whether colors are on is for `colored` to decide, from the variables and
/// the terminal of the process or from its override, so the result is one of
/// two: the text unchanged, or the text between the code for red and the
/// reset. This is claimed only of a text without an escape character, in
/// which no reset sequence has to be rewritten.
#[verifier::external_body]
fn red(text: &str) -> (out: String)
    ensures
        !text@.contains('\x1B') ==> painted("31"@, text@, out@),
{
    text.red().to_string()
}

/// Colors `text` green with `colored::Colorize::green` and renders it with
/// `to_string`.
///
/// As for red: the text unchanged, or the text between the code for green
/// and the reset, for a text without an escape character.
#[verifier::external_body]
fn green(text: &str) -> (out: String)
    ensures
        !text@.contains('\x1B') ==> painted("32"@, text@, out@),
{
    text.green().to_string()
}

impl<A> Shell<A> {
    /// The indicator of the state, without color.
    pub fn indicator(&self) -> (text: &'static str)
        ensures
            text@ == indicator(self@.state),
    {
        match self.state() {
            State::Error(_) => "! ",
            State::Okay => "> ",
        }
    }

    /// The prompt for the next line. Its text depends on the state only: the
    /// indicator of the state, in its color where the terminal takes colors.
    pub fn prompt(&self) -> (text: String)
        ensures
            painted(indicator_color(self@.state), indicator(self@.state), text@),
    {
        proof {
            reveal_strlit("! ");
            reveal_strlit("> ");
        }
        match self.state() {
            State::Error(_) => red(self.indicator()),
            State::Okay => green(self.indicator()),
        }
    }
}

} // verus!
