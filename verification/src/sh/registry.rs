//! Which command a name resolves to, which mode a name stands for, and what
//! follows from the order in which the commands in force are searched.

use vstd::prelude::*;
use crate::sh::cmd::CommandView;
use crate::sh::line::{empty_input_message, tokenize};
use crate::sh::ShellView;

verus! {

/// The message of the error returned for a name that no command answers to.
pub open spec fn not_found_message(name: Seq<char>) -> Seq<char> {
    "command not found: "@ + name
}

/// The message of the error returned for a switch to a mode that is not there.
pub open spec fn no_mode_message(name: Seq<char>) -> Seq<char> {
    "no mode '"@ + name + "'"@
}

impl<A> ShellView<A> {
    /// The command at `i` is the first one in force that answers to `name`.
    pub open spec fn first_match(self, name: Seq<char>, i: int) -> bool {
        &&& 0 <= i < self.commands().len()
        &&& self.commands()[i].answers_to(name)
        &&& forall|j: int| 0 <= j < i ==> !self.commands()[j].answers_to(name)
    }

    /// The position among the commands in force of the one that `name`
    /// resolves to, or `None` where no command answers to it.
    pub open spec fn resolve(self, name: Seq<char>) -> Option<int> {
        if exists|i: int| self.first_match(name, i) {
            Some(choose|i: int| self.first_match(name, i))
        } else {
            None
        }
    }

    /// What a line hands to which command: the command that its name resolves
    /// to and its arguments, or the message of the failure to get that far.
    pub open spec fn dispatch(self, line: Seq<char>) -> Result<
        (CommandView<A>, Seq<Seq<char>>),
        Seq<char>,
    > {
        match tokenize(line) {
            None => Err(empty_input_message()),
            Some((name, args)) => match self.resolve(name) {
                None => Err(not_found_message(name)),
                Some(i) => Ok((self.commands()[i], args)),
            },
        }
    }

    /// The mode at `i` is the first one named `name`.
    pub open spec fn first_named(self, name: Seq<char>, i: int) -> bool {
        &&& 0 <= i < self.modes.len()
        &&& self.modes[i].name == name
        &&& forall|j: int| 0 <= j < i ==> self.modes[j].name != name
    }

    /// The position of the first mode named `name`, if there is one.
    pub open spec fn mode_named(self, name: Seq<char>) -> Option<int> {
        if exists|i: int| self.first_named(name, i) {
            Some(choose|i: int| self.first_named(name, i))
        } else {
            None
        }
    }

    /// The shell after a switch to the mode called `name`: the first mode of
    /// that name is selected; where there is none, the name `none` clears the
    /// selection and any other name is an error.
    pub open spec fn switched(self, name: Seq<char>) -> Result<ShellView<A>, Seq<char>> {
        match self.mode_named(name) {
            Some(i) => Ok(ShellView { current_mode: Some(i as usize), ..self }),
            None => if name == "none"@ {
                Ok(ShellView { current_mode: None, ..self })
            } else {
                Err(no_mode_message(name))
            },
        }
    }
}

impl<A> ShellView<A> {
    /// A first match is the one that the name resolves to.
    pub proof fn lemma_first_match_resolves(self, name: Seq<char>, i: int)
        requires
            self.first_match(name, i),
        ensures
            self.resolve(name) == Some(i),
    {
        let j = choose|j: int| self.first_match(name, j);
        if j < i {
            assert(!self.commands()[j].answers_to(name));
        } else if i < j {
            assert(!self.commands()[i].answers_to(name));
        }
    }

    /// Where no command in force answers to a name, it resolves to none.
    pub proof fn lemma_no_match_unresolved(self, name: Seq<char>)
        requires
            forall|j: int| 0 <= j < self.commands().len() ==> !self.commands()[j].answers_to(name),
        ensures
            self.resolve(name) is None,
    {
    }

    /// A name that the command at `i` answers to resolves to that command or
    /// to one before it.
    pub proof fn lemma_match_resolves(self, name: Seq<char>, i: int)
        requires
            0 <= i < self.commands().len(),
            self.commands()[i].answers_to(name),
        ensures
            self.resolve(name) matches Some(j) && j <= i && self.first_match(name, j),
        decreases i,
    {
        if exists|k: int| 0 <= k < i && self.commands()[k].answers_to(name) {
            let k = choose|k: int| 0 <= k < i && self.commands()[k].answers_to(name);
            self.lemma_match_resolves(name, k);
        } else {
            self.lemma_first_match_resolves(name, i);
        }
    }

    /// A first mode of a name is the one that the name stands for.
    pub proof fn lemma_first_named(self, name: Seq<char>, i: int)
        requires
            self.first_named(name, i),
        ensures
            self.mode_named(name) == Some(i),
    {
        let j = choose|j: int| self.first_named(name, j);
        if j < i {
            assert(self.modes[j].name != name);
        } else if i < j {
            assert(self.modes[i].name != name);
        }
    }
}

impl<A> ShellView<A> {
    /// Each alias of a command in force resolves to that command, provided
    /// that no command before it answers to the same alias.
    pub proof fn law_alias_resolves(self, i: int, alias: Seq<char>)
        requires
            0 <= i < self.commands().len(),
            self.commands()[i].aliases.contains(alias),
            forall|k: int| 0 <= k < i ==> !self.commands()[k].aliases.contains(alias),
        ensures
            self.resolve(alias) == Some(i),
    {
        self.lemma_first_match_resolves(alias, i);
    }

    /// A name resolves to none exactly where it is no alias of any command in
    /// force.
    pub proof fn law_unknown_unresolved(self, name: Seq<char>)
        ensures
            self.resolve(name) is None <==> forall|i: int|
                0 <= i < self.commands().len() ==> !self.commands()[i].aliases.contains(name),
    {
        if exists|i: int| 0 <= i < self.commands().len() && self.commands()[i].aliases.contains(name) {
            let i = choose|i: int|
                0 <= i < self.commands().len() && self.commands()[i].aliases.contains(name);
            self.lemma_match_resolves(name, i);
        }
    }

    /// No mode shadows a builtin command: a name that a builtin command
    /// answers to resolves to a builtin command, and to the same one whichever
    /// mode is selected.
    pub proof fn law_builtin_precedence(self, name: Seq<char>, i: int, selection: Option<usize>)
        requires
            0 <= i < self.builtin.len(),
            self.builtin[i].answers_to(name),
        ensures
            self.resolve(name) matches Some(j) && j <= i && self.commands()[j] == self.builtin[j],
            (ShellView { current_mode: selection, ..self }).resolve(name) == self.resolve(name),
    {
        let other = ShellView { current_mode: selection, ..self };
        self.lemma_match_resolves(name, i);
        other.lemma_match_resolves(name, i);
        let j = self.resolve(name)->0;
        let k = other.resolve(name)->0;
        if j < k {
            assert(!other.commands()[j].answers_to(name));
        } else if k < j {
            assert(!self.commands()[k].answers_to(name));
        }
    }

    /// The commands in force are the builtin ones followed by those of the
    /// active mode, and by nothing where no mode is active.
    pub proof fn law_commands_layout(self)
        ensures
            self.commands().len() == self.builtin.len() + match self.mode() {
                Some(mode) => mode.commands.len(),
                None => 0,
            },
            forall|i: int| 0 <= i < self.builtin.len() ==> self.commands()[i] == self.builtin[i],
            self.mode() matches Some(mode) ==> forall|k: int|
                0 <= k < mode.commands.len() ==> self.commands()[self.builtin.len() + k]
                    == mode.commands[k],
    {
    }
}

} // verus!
