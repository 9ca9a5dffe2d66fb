//! The transition of the read-eval-print loop: from the shell and what the
//! line source reported to the next shell and what the loop's driver does.

use vstd::prelude::*;
use crate::sh::cmd::{Action, Behavior, not_implemented_message};
use crate::sh::{Shell, ShellView};

verus! {

/// What one attempt to read a line reported.
#[derive(Debug, Clone, PartialEq)]
pub enum Input {
    /// A line was read; `remembered` tells whether the line source could add
    /// it to its history.
    Line { text: String, remembered: bool },
    /// The user interrupted the read.
    Interrupted,
    /// The input is at its end.
    Eof,
    /// The read failed for another reason.
    Failed,
}

/// What the driver of the loop does after a transition.
#[derive(Debug, Clone, PartialEq)]
pub enum Step {
    /// Read the next line, after printing the report if there is one.
    Continue(Option<String>),
    /// Print the notice and end the process with the code.
    Exit { code: i32, notice: String },
}

/// The line printed for a failure with the given message.
pub open spec fn report(message: Seq<char>) -> Seq<char> {
    "err: "@ + message
}

/// The message of a read that failed without a fatal signal.
pub open spec fn read_failed_message() -> Seq<char> {
    "couldn't take line"@
}

/// The message of a line that the line source could not remember.
pub open spec fn not_remembered_message() -> Seq<char> {
    "couldn't add line to history"@
}

impl<A> ShellView<A> {
    /// The shell with its state replaced by the outcome of a line: no failure
    /// after a success, and the reported message after a failure.
    pub open spec fn settled(self, outcome: Result<(), Seq<char>>) -> ShellView<A> {
        ShellView {
            state: match outcome {
                Ok(_) => None,
                Err(message) => Some(message),
            },
            ..self
        }
    }
}

/// The state after a line is the outcome of that line alone: the message of a
/// failure is in the state whatever the shell was before, and a success
/// clears whatever failure came before it.
pub proof fn law_state_follows_outcome<A>(
    before: ShellView<A>,
    message: Seq<char>,
    later: ShellView<A>,
)
    ensures
        before.settled(Err(message)).state == Some(message),
        later.settled(Ok(())).state is None,
        before.settled(Err(message)).settled(Ok(())).state is None,
{
}

/// What a step returned for a line says of the shell it left: no report with
/// no failure in the state, and else the report of the state's failure.
pub open spec fn reported<A>(after: ShellView<A>, step: Step) -> bool {
    match step {
        Step::Continue(None) => after.state is None,
        Step::Continue(Some(line)) => after.state matches Some(message) && line@ == report(
            message,
        ),
        Step::Exit { .. } => false,
    }
}

impl<A> Shell<A> {
    /// Folds the outcome of a line into the state and returns the report to
    /// print, if the line failed.
    pub fn settle(&mut self, outcome: Result<(), String>) -> (line: Option<String>)
        ensures
            final(self)@ == old(self)@.settled(
                match outcome {
                    Ok(_) => Ok(()),
                    Err(message) => Err(message@),
                },
            ),
            match outcome {
                Ok(_) => line is None,
                Err(message) => line matches Some(text) && text@ == report(message@),
            },
    {
        match outcome {
            Ok(_) => {
                self.ok();
                None
            },
            Err(message) => {
                let mut text = "err: ".to_owned();
                text.append(message.as_str());
                self.err(message);
                Some(text)
            },
        }
    }

}

impl<A: Action> Shell<A> {
    /// One transition of the loop.
    ///
    /// An interrupt and the end of the input end the process with code 1 and
    /// leave the shell untouched. A read that failed otherwise, and a line
    /// that could not be remembered, put their message into the state without
    /// running anything. Any other line is handled, and its outcome becomes
    /// the state.
    pub fn step(&mut self, input: Input) -> (step: Step)
        ensures
            final(self)@.wf(),
            match input {
                Input::Interrupted => final(self)@ == old(self)@ && (step matches Step::Exit {
                    code,
                    notice,
                } && code == 1 && notice@ == "! CTRL-C"@),
                Input::Eof => final(self)@ == old(self)@ && (step matches Step::Exit {
                    code,
                    notice,
                } && code == 1 && notice@ == "! EOF"@),
                Input::Failed => final(self)@ == old(self)@.settled(Err(read_failed_message()))
                    && reported(final(self)@, step),
                Input::Line { text, remembered } => if !remembered {
                    final(self)@ == old(self)@.settled(Err(not_remembered_message())) && reported(
                        final(self)@,
                        step,
                    )
                } else {
                    reported(final(self)@, step) && match old(self)@.dispatch(text@) {
                        Err(reason) => final(self)@ == old(self)@.settled(Err(reason)),
                        Ok((command, _)) => match command.action {
                            Behavior::Nothing => final(self)@ == old(self)@.settled(Ok(())),
                            Behavior::Unimplemented => final(self)@ == old(self)@.settled(
                                Err(not_implemented_message()),
                            ),
                            Behavior::Custom(_) => true,
                        },
                    }
                },
            },
    {
        proof {
            use_type_invariant(&*self);
        }
        match input {
            Input::Interrupted => Step::Exit { code: 1, notice: "! CTRL-C".to_owned() },
            Input::Eof => Step::Exit { code: 1, notice: "! EOF".to_owned() },
            Input::Failed => {
                let line = self.settle(Err("couldn't take line".to_owned()));
                Step::Continue(line)
            },
            Input::Line { text, remembered } => {
                let outcome = if remembered {
                    self.handle_line(text)
                } else {
                    Err("couldn't add line to history".to_owned())
                };
                let line = self.settle(outcome);
                Step::Continue(line)
            },
        }
    }
}

} // verus!
