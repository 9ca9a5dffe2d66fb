//! The shell runtime: its state, the command registry and the transition of
//! the read-eval-print loop.

use vstd::prelude::*;
use vstd::hash_map::StringHashMap;
use crate::sh::cmd::{Action, Command, CommandView, ran};
use crate::sh::flag::Flag;
use crate::sh::mode::{Mode, ModeView};
use crate::sh::registry::not_found_message;

pub mod cmd;
pub mod flag;
pub mod line;
pub mod mode;
pub mod prompt;
pub mod registry;
pub mod repl;

pub use line::parse_line;

verus! {

/// How the last line ended.
#[derive(Debug, Clone, PartialEq)]
pub enum State {
    Okay,
    Error(String),
}

impl View for State {
    type V = Option<Seq<char>>;

    /// The message of the failure, or `None` where there was none.
    open spec fn view(&self) -> Option<Seq<char>> {
        match self {
            State::Okay => None,
            State::Error(message) => Some(message@),
        }
    }
}

/// The mutable context that commands run against.
pub struct Shell<A> {
    state: State,
    flags: StringHashMap<Flag>,
    current_mode: Option<usize>,
    modes: Vec<Mode<A>>,
    builtin: Vec<Command<A>>,
}

/// The mathematical content of a [`Shell`].
pub struct ShellView<A> {
    pub state: Option<Seq<char>>,
    pub current_mode: Option<usize>,
    pub modes: Seq<ModeView<A>>,
    pub builtin: Seq<CommandView<A>>,
    pub flags: Map<Seq<char>, Flag>,
}

impl<A> ShellView<A> {
    /// The selected mode exists.
    pub open spec fn wf(self) -> bool {
        self.current_mode matches Some(i) ==> i < self.modes.len()
    }

    /// The active mode, if one is selected.
    pub open spec fn mode(self) -> Option<ModeView<A>> {
        match self.current_mode {
            Some(i) if i < self.modes.len() => Some(self.modes[i as int]),
            _ => None,
        }
    }

    /// The commands in force: the builtin ones, then those of the active mode.
    pub open spec fn commands(self) -> Seq<CommandView<A>> {
        match self.mode() {
            Some(mode) => self.builtin + mode.commands,
            None => self.builtin,
        }
    }
}

impl<A> View for Shell<A> {
    type V = ShellView<A>;

    closed spec fn view(&self) -> ShellView<A> {
        ShellView {
            state: self.state@,
            current_mode: self.current_mode,
            modes: self.modes.deep_view(),
            builtin: self.builtin.deep_view(),
            flags: self.flags@,
        }
    }
}

impl<A> Shell<A> {
    /// The selected mode exists, whatever was done to the shell.
    #[verifier::type_invariant]
    pub open spec fn inv(&self) -> bool {
        self@.wf()
    }

    /// Creates a shell in state `Okay` with no commands, modes or flags.
    pub fn new() -> (shell: Shell<A>)
        ensures
            shell@ == (ShellView::<A> {
                state: None,
                current_mode: None,
                modes: Seq::empty(),
                builtin: Seq::empty(),
                flags: Map::empty(),
            }),
    {
        let shell = Shell {
            state: State::Okay,
            flags: StringHashMap::new(),
            current_mode: None,
            modes: Vec::new(),
            builtin: Vec::new(),
        };
        assert(shell.modes.deep_view() =~= Seq::empty());
        assert(shell.builtin.deep_view() =~= Seq::empty());
        shell
    }

    /// Sets the state to an error with the given message.
    pub fn err(&mut self, message: String)
        ensures
            final(self)@ == (ShellView { state: Some(message@), ..old(self)@ }),
    {
        proof {
            use_type_invariant(&*self);
        }
        self.state = State::Error(message);
    }

    /// Resets the state to `Okay`.
    pub fn ok(&mut self)
        ensures
            final(self)@ == (ShellView { state: None, ..old(self)@ }),
    {
        proof {
            use_type_invariant(&*self);
        }
        self.state = State::Okay;
    }

    /// The state left by the last line.
    pub fn state(&self) -> (state: &State)
        ensures
            state@ == self@.state,
    {
        &self.state
    }

    /// The index of the selected mode. It is always within the modes.
    pub fn current_mode(&self) -> (index: Option<usize>)
        ensures
            index == self@.current_mode,
            self@.wf(),
    {
        proof {
            use_type_invariant(self);
        }
        self.current_mode
    }

    /// The registered modes, in the order of their registration.
    pub fn modes(&self) -> (modes: &Vec<Mode<A>>)
        ensures
            modes.deep_view() == self@.modes,
    {
        &self.modes
    }

    /// The builtin commands, in the order of their registration.
    pub fn builtin(&self) -> (commands: &Vec<Command<A>>)
        ensures
            commands.deep_view() == self@.builtin,
    {
        &self.builtin
    }

    /// Registers a builtin command behind those already registered.
    pub fn add_command(&mut self, command: Command<A>)
        ensures
            final(self)@ == (ShellView { builtin: old(self)@.builtin.push(command@), ..old(self)@ }),
    {
        proof {
            use_type_invariant(&*self);
        }
        // The list grows outside the shell, which is whole at every step.
        let mut builtin = Vec::new();
        std::mem::swap(&mut self.builtin, &mut builtin);
        builtin.push(command);
        std::mem::swap(&mut self.builtin, &mut builtin);
        assert(self.builtin.deep_view() =~= old(self).builtin.deep_view().push(command@));
    }

    /// Registers builtin commands, in their order, behind those already
    /// registered.
    pub fn add_commands(&mut self, commands: Vec<Command<A>>)
        ensures
            final(self)@ == (ShellView {
                builtin: old(self)@.builtin + commands.deep_view(),
                ..old(self)@
            }),
    {
        proof {
            use_type_invariant(&*self);
        }
        let mut added = commands;
        let mut builtin = Vec::new();
        std::mem::swap(&mut self.builtin, &mut builtin);
        builtin.append(&mut added);
        std::mem::swap(&mut self.builtin, &mut builtin);
        assert(self.builtin.deep_view() =~= old(self).builtin.deep_view() + commands.deep_view());
    }

    /// Registers modes, in their order, behind those already registered. The
    /// selection stays.
    pub fn add_modes(&mut self, modes: Vec<Mode<A>>)
        ensures
            final(self)@ == (ShellView {
                modes: old(self)@.modes + modes.deep_view(),
                ..old(self)@
            }),
    {
        proof {
            use_type_invariant(&*self);
        }
        let mut added = modes;
        let current = self.current_mode;
        self.current_mode = None;
        let mut all = Vec::new();
        std::mem::swap(&mut self.modes, &mut all);
        all.append(&mut added);
        std::mem::swap(&mut self.modes, &mut all);
        assert(self.modes.deep_view() =~= old(self).modes.deep_view() + modes.deep_view());
        self.current_mode = current;
    }

    /// Registers a mode behind those already registered. The selection stays.
    pub fn add_mode(&mut self, mode: Mode<A>)
        ensures
            final(self)@ == (ShellView { modes: old(self)@.modes.push(mode@), ..old(self)@ }),
    {
        proof {
            use_type_invariant(&*self);
        }
        // No mode is selected while the list grows outside the shell.
        let current = self.current_mode;
        self.current_mode = None;
        let mut modes = Vec::new();
        std::mem::swap(&mut self.modes, &mut modes);
        modes.push(mode);
        std::mem::swap(&mut self.modes, &mut modes);
        assert(self.modes.deep_view() =~= old(self).modes.deep_view().push(mode@));
        self.current_mode = current;
    }

    /// The active mode, if one is selected.
    pub fn mode(&self) -> (active: Option<&Mode<A>>)
        ensures
            match self@.mode() {
                Some(mode) => active matches Some(found) && found@ == mode,
                None => active is None,
            },
    {
        proof {
            use_type_invariant(self);
        }
        match self.current_mode {
            Some(i) => Some(&self.modes[i]),
            None => None,
        }
    }

    /// The commands in force: the builtin ones first, then those of the active
    /// mode.
    pub fn commands(&self) -> (all: Vec<Command<A>>) where A: Copy
        ensures
            all.deep_view() == self@.commands(),
            all.len() == self@.builtin.len() + match self@.mode() {
                Some(mode) => mode.commands.len(),
                None => 0,
            },
            forall|i: int| 0 <= i < self@.builtin.len() ==> all.deep_view()[i] == self@.builtin[i],
    {
        let mut all: Vec<Command<A>> = Vec::new();
        let mut i: usize = 0;
        while i < self.builtin.len()
            invariant
                i <= self.builtin.len(),
                all.deep_view() == self.builtin.deep_view().take(i as int),
            decreases self.builtin.len() - i,
        {
            all.push(self.builtin[i].clone());
            assert(self.builtin.deep_view().take(i + 1) =~= self.builtin.deep_view().take(
                i as int,
            ).push(self.builtin[i as int]@));
            i += 1;
        }
        if let Some(mode) = self.mode() {
            let mut k: usize = 0;
            while k < mode.commands.len()
                invariant
                    k <= mode.commands.len(),
                    all.deep_view() == self.builtin.deep_view() + mode@.commands.take(k as int),
                decreases mode.commands.len() - k,
            {
                all.push(mode.commands[k].clone());
                assert(self.builtin.deep_view() + mode@.commands.take(k + 1) =~= (
                    self.builtin.deep_view() + mode@.commands.take(k as int)
                ).push(mode.commands[k as int]@));
                k += 1;
            }
        }
        all
    }

    /// Finds the first command in force that answers to `name`: a builtin
    /// command before any command of the active mode. The name is compared
    /// exactly with each alias.
    pub fn find_command(&self, name: &str) -> (found: Result<Command<A>, String>) where A: Copy
        ensures
            match self@.resolve(name@) {
                Some(i) => found matches Ok(command) && command@ == self@.commands()[i],
                None => found matches Err(message) && message@ == not_found_message(name@),
            },
    {
        if let Some(i) = first_answering(&self.builtin, name) {
            proof {
                self@.lemma_first_match_resolves(name@, i as int);
            }
            return Ok(self.builtin[i].clone());
        }
        if let Some(mode) = self.mode() {
            if let Some(k) = first_answering(&mode.commands, name) {
                proof {
                    self@.lemma_first_match_resolves(name@, self.builtin.len() + k);
                }
                return Ok(mode.commands[k].clone());
            }
        }
        proof {
            self@.lemma_no_match_unresolved(name@);
        }
        let mut message = "command not found: ".to_owned();
        message.append(name);
        Err(message)
    }

    /// Tokenizes a line and resolves its command: what comes back is the
    /// command to run and the arguments to run it with.
    pub fn dispatch(&self, line: String) -> (target: Result<(Command<A>, Vec<String>), String>) where
        A: Copy,
        ensures
            match self@.dispatch(line@) {
                Ok((command, args)) => target matches Ok(found) && found.0@ == command
                    && found.1.deep_view() == args,
                Err(reason) => target matches Err(message) && message@ == reason,
            },
    {
        let (name, args) = match parse_line(line) {
            Ok(parsed) => parsed,
            Err(message) => {
                return Err(message);
            },
        };
        match self.find_command(name.as_str()) {
            Ok(command) => Ok((command, args)),
            Err(message) => Err(message),
        }
    }

    /// Handles a line: runs the command that it dispatches to with the
    /// arguments that it dispatches. A line that names no command, or one
    /// that no command in force answers to, fails and leaves the shell as it
    /// is. The state is not touched here, whatever the outcome.
    pub fn handle_line(&mut self, line: String) -> (outcome: Result<(), String>) where A: Action
        ensures
            match old(self)@.dispatch(line@) {
                Ok((command, args)) => ran(command.action, old(self)@, final(self)@, outcome),
                Err(reason) => final(self)@ == old(self)@ && (outcome matches Err(message)
                    && message@ == reason),
            },
            final(self)@.wf(),
    {
        proof {
            use_type_invariant(&*self);
        }
        let (command, args) = match self.dispatch(line) {
            Ok(target) => target,
            Err(message) => {
                return Err(message);
            },
        };
        command.run(self, args)
    }

    /// Selects the mode at `idx`, or none. An index outside the modes is
    /// ignored: the selection stays as it was.
    pub fn set_mode(&mut self, idx: Option<usize>)
        ensures
            final(self)@ == (ShellView {
                current_mode: match idx {
                    Some(i) => if i < old(self)@.modes.len() {
                        Some(i)
                    } else {
                        old(self)@.current_mode
                    },
                    None => None,
                },
                ..old(self)@
            }),
            final(self)@.wf(),
    {
        proof {
            use_type_invariant(&*self);
        }
        match idx {
            Some(i) => {
                if i < self.modes.len() {
                    self.current_mode = Some(i);
                }
            },
            None => {
                self.current_mode = None;
            },
        }
    }

    /// Switches to the first mode called `name`. Where no mode has that name,
    /// `none` clears the selection and any other name fails.
    pub fn switch_mode(&mut self, name: &str) -> (outcome: Result<(), String>)
        ensures
            match old(self)@.switched(name@) {
                Ok(after) => outcome is Ok && final(self)@ == after,
                Err(reason) => final(self)@ == old(self)@ && (outcome matches Err(message)
                    && message@ == reason),
            },
    {
        proof {
            use_type_invariant(&*self);
        }
        let wanted = name.to_owned();
        let mut i: usize = 0;
        while i < self.modes.len()
            invariant
                i <= self.modes.len(),
                wanted@ == name@,
                *self == *old(self),
                forall|j: int| 0 <= j < i ==> self@.modes[j].name != name@,
            decreases self.modes.len() - i,
        {
            if self.modes[i].name == wanted {
                proof {
                    self@.lemma_first_named(name@, i as int);
                }
                self.current_mode = Some(i);
                return Ok(());
            }
            i += 1;
        }
        let none = "none".to_owned();
        if wanted == none {
            self.current_mode = None;
            return Ok(());
        }
        let mut message = "no mode '".to_owned();
        message.append(name);
        message.append("'");
        Err(message)
    }

    /// Stores `value` under `name`, in place of any value stored there.
    pub fn set_flag(&mut self, name: &str, value: Flag)
        ensures
            final(self)@ == (ShellView { flags: old(self)@.flags.insert(name@, value), ..old(self)@ }),
    {
        proof {
            use_type_invariant(&*self);
        }
        let mut flags = StringHashMap::new();
        std::mem::swap(&mut self.flags, &mut flags);
        flags.insert(name.to_owned(), value);
        std::mem::swap(&mut self.flags, &mut flags);
    }

    /// The value stored under `name`, if there is one.
    pub fn get_flag(&self, name: &str) -> (value: Option<&Flag>)
        ensures
            match value {
                Some(flag) => self@.flags.contains_key(name@) && *flag == self@.flags[name@],
                None => !self@.flags.contains_key(name@),
            },
    {
        self.flags.get(name)
    }
}

impl<A> Default for Shell<A> {
    fn default() -> (shell: Shell<A>)
        ensures
            shell@ == (ShellView::<A> {
                state: None,
                current_mode: None,
                modes: Seq::empty(),
                builtin: Seq::empty(),
                flags: Map::empty(),
            }),
    {
        Shell::new()
    }
}

/// The position of the first of `commands` that answers to `name`.
fn first_answering<A>(commands: &Vec<Command<A>>, name: &str) -> (found: Option<usize>)
    ensures
        match found {
            Some(i) => i < commands.len() && commands.deep_view()[i as int].answers_to(name@),
            None => true,
        },
        forall|j: int|
            0 <= j < (match found {
                Some(i) => i as int,
                None => commands.len() as int,
            }) ==> !commands.deep_view()[j].answers_to(name@),
{
    let mut i: usize = 0;
    while i < commands.len()
        invariant
            i <= commands.len(),
            forall|j: int| 0 <= j < i ==> !commands.deep_view()[j].answers_to(name@),
        decreases commands.len() - i,
    {
        if commands[i].answers_to(name) {
            return Some(i);
        }
        i += 1;
    }
    None
}

} // verus!
