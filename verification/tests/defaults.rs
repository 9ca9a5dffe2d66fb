use citrs::defaults::commands::{
    all, debug_report_text, debug_text, decimal_text, help_text, mode_text,
};
use citrs::defaults::modes;
use citrs::defaults::populate;
use citrs::sh::cmd::builder::CommandBuilder;
use citrs::sh::cmd::{Action, Behavior, Command};
use citrs::sh::mode::Mode;
use citrs::sh::{Shell, State};

/// An action named by a number.
#[derive(Clone, Copy, Debug, PartialEq)]
struct Tag(u8);

impl Action for Tag {
    fn invoke(&self, _shell: &mut Shell<Tag>, _args: Vec<String>) -> Result<(), String> {
        Err(format!("tag {}", self.0))
    }
}

fn strings(items: &[&str]) -> Vec<String> {
    items.iter().map(|s| s.to_string()).collect()
}

fn populated() -> Shell<Tag> {
    let mut shell = Shell::new();
    populate(&mut shell, Tag(1), Tag(2), Tag(3));
    shell
}

fn empty_mode(name: &str) -> Mode<Tag> {
    Mode { name: name.to_string(), description: String::new(), commands: vec![] }
}

#[test]
fn default_commands_are_debug_help_and_mode() {
    let commands: Vec<Command<Tag>> = all(Tag(1), Tag(2), Tag(3));
    assert_eq!(commands.len(), 3);
    assert_eq!(commands[0].name, "debug");
    assert_eq!(commands[0].aliases, vec!["debug", "dbg", "!"]);
    assert_eq!(commands[0].description, "print debug information");
    assert_eq!(commands[0].usage, "debug [cmd]");
    assert_eq!(commands[0].action, Behavior::Custom(Tag(1)));
    assert_eq!(commands[1].name, "help");
    assert_eq!(commands[1].aliases, vec!["help", "?"]);
    assert_eq!(commands[1].description, "print help information");
    assert_eq!(commands[1].usage, "help [command]");
    assert_eq!(commands[1].action, Behavior::Custom(Tag(2)));
    assert_eq!(commands[2].name, "mode");
    assert_eq!(commands[2].aliases, vec!["mode"]);
    assert_eq!(commands[2].description, "change or print the current mode");
    assert_eq!(commands[2].usage, "mode [name | none]");
    assert_eq!(commands[2].action, Behavior::Custom(Tag(3)));
}

#[test]
fn default_modes_are_the_bookmark_mode() {
    let all: Vec<Mode<Tag>> = modes::all();
    assert_eq!(all.len(), 1);
    assert_eq!(all[0], modes::bookmark::mode());
    let bookmark: Mode<Tag> = modes::bookmark::mode();
    assert_eq!(bookmark.name, "bookmark");
    assert_eq!(bookmark.description, "Bookmark mode");
    assert_eq!(bookmark.commands.len(), 2);
    assert_eq!(bookmark.commands[0], CommandBuilder::todo("add").build());
    assert_eq!(bookmark.commands[1], CommandBuilder::todo("list").build());
}

#[test]
fn populate_registers_the_defaults_and_selects_the_first_mode() {
    let mut shell = populated();
    assert_eq!(shell.builtin().len(), 3);
    assert_eq!(shell.modes().len(), 1);
    assert_eq!(shell.current_mode(), Some(0));
    assert_eq!(*shell.state(), State::Okay);
    let names: Vec<String> = shell.commands().iter().map(|c| c.name.clone()).collect();
    assert_eq!(names, vec!["debug", "help", "mode", "add", "list"]);
    assert_eq!(shell.handle_line("! x".to_string()), Err("tag 1".to_string()));
    assert_eq!(shell.handle_line("?".to_string()), Err("tag 2".to_string()));
    assert_eq!(shell.handle_line("mode none".to_string()), Err("tag 3".to_string()));
    assert_eq!(shell.handle_line("add here".to_string()), Err("not yet implemented".to_string()));
    assert_eq!(shell.handle_line("list".to_string()), Err("not yet implemented".to_string()));
}

#[test]
fn help_without_arguments_lists_the_commands_in_force() {
    let mut shell = populated();
    assert_eq!(
        help_text(&shell, &vec![]),
        Ok(strings(&[
            "debug - print debug information",
            "help - print help information",
            "mode - change or print the current mode",
            "add - not yet implemented (bookmark)",
            "list - not yet implemented (bookmark)",
        ]))
    );
    shell.set_mode(None);
    assert_eq!(
        help_text(&shell, &vec![]),
        Ok(strings(&[
            "debug - print debug information",
            "help - print help information",
            "mode - change or print the current mode",
        ]))
    );
    let empty: Shell<Tag> = Shell::new();
    assert_eq!(help_text(&empty, &vec![]), Ok(vec![]));
}

#[test]
fn help_with_an_argument_describes_that_command() {
    let shell = populated();
    assert_eq!(
        help_text(&shell, &strings(&["dbg"])),
        Ok(strings(&["debug - print debug information", "aliases: dbg, !", "Usage: debug [cmd]"]))
    );
    assert_eq!(
        help_text(&shell, &strings(&["?", "ignored"])),
        Ok(strings(&["help - print help information", "aliases: ?", "Usage: help [command]"]))
    );
    assert_eq!(
        help_text(&shell, &strings(&["mode"])),
        Ok(strings(&["mode - change or print the current mode", "Usage: mode [name | none]"]))
    );
    assert_eq!(
        help_text(&shell, &strings(&["list"])),
        Ok(strings(&["list - not yet implemented", "Usage: list"]))
    );
    assert_eq!(help_text(&shell, &strings(&["nope"])), Err("command not found: nope".to_string()));
}

#[test]
fn mode_without_arguments_shows_the_active_mode_and_the_others() {
    let mut shell = populated();
    assert_eq!(mode_text(&mut shell, &vec![]), Ok(strings(&["mode: bookmark", "no other modes"])));
    shell.set_mode(None);
    assert_eq!(
        mode_text(&mut shell, &vec![]),
        Ok(strings(&["mode: none", "available:", "  - bookmark"]))
    );
    shell.add_mode(empty_mode("second"));
    shell.add_mode(empty_mode("bookmark"));
    shell.add_mode(empty_mode("none"));
    assert_eq!(
        mode_text(&mut shell, &vec![]),
        Ok(strings(&["mode: none", "available:", "  - bookmark", "  - second", "  - bookmark"]))
    );
    shell.set_mode(Some(1));
    assert_eq!(
        mode_text(&mut shell, &vec![]),
        Ok(strings(&["mode: second", "available:", "  - bookmark", "  - bookmark", "  - none"]))
    );
    assert_eq!(shell.current_mode(), Some(1));
    let mut empty: Shell<Tag> = Shell::new();
    assert_eq!(mode_text(&mut empty, &vec![]), Ok(strings(&["mode: none", "no other modes"])));
}

#[test]
fn mode_with_an_argument_switches() {
    let mut shell = populated();
    shell.add_mode(empty_mode("second"));
    assert_eq!(mode_text(&mut shell, &strings(&["second"])), Ok(vec![]));
    assert_eq!(shell.current_mode(), Some(1));
    assert_eq!(mode_text(&mut shell, &strings(&["none", "ignored"])), Ok(vec![]));
    assert_eq!(shell.current_mode(), None);
    assert_eq!(mode_text(&mut shell, &strings(&["bookmark"])), Ok(vec![]));
    assert_eq!(shell.current_mode(), Some(0));
    assert_eq!(mode_text(&mut shell, &strings(&["third"])), Err("no mode 'third'".to_string()));
    assert_eq!(shell.current_mode(), Some(0));
}

#[test]
fn decimal_text_writes_numerals() {
    assert_eq!(decimal_text(0), "0");
    assert_eq!(decimal_text(7), "7");
    assert_eq!(decimal_text(9), "9");
    assert_eq!(decimal_text(10), "10");
    assert_eq!(decimal_text(101), "101");
    assert_eq!(decimal_text(12345), "12345");
    assert_eq!(decimal_text(9_000_000_000), "9000000000");
    assert_eq!(decimal_text(usize::MAX), usize::MAX.to_string());
}

#[test]
fn debug_without_arguments_reports_the_shell() {
    let mut shell = populated();
    assert_eq!(
        debug_text(&shell, &vec![]),
        strings(&[
            "state: Ok",
            "builtin: 3",
            "mode: bookmark",
            "  'Bookmark mode'",
            "  commands: 2",
        ])
    );
    shell.set_mode(None);
    shell.err("it broke".to_string());
    assert_eq!(
        debug_text(&shell, &vec![]),
        strings(&["state: Error(\"it broke\")", "builtin: 3", "no mode"])
    );
    let empty: Shell<Tag> = Shell::new();
    assert_eq!(debug_text(&empty, &vec![]), strings(&["state: Ok", "builtin: 0", "no mode"]));
}

#[test]
fn debug_escapes_the_message_of_the_state() {
    let mut shell = populated();
    shell.err("a \"quoted\" \\ line\n\tend".to_string());
    assert_eq!(
        debug_text(&shell, &vec![])[0],
        "state: Error(\"a \\\"quoted\\\" \\\\ line\\n\\tend\")"
    );
    shell.err(String::new());
    assert_eq!(debug_text(&shell, &vec![])[0], "state: Error(\"\")");
}

#[test]
fn debug_with_arguments_prints_nothing() {
    let shell = populated();
    assert_eq!(debug_text(&shell, &strings(&["x"])), Vec::<String>::new());
    assert_eq!(debug_text(&shell, &strings(&["", "y"])), Vec::<String>::new());
}

#[test]
fn debug_report_is_built_from_its_parts() {
    let mode = Mode::<Tag> {
        name: "m".to_string(),
        description: "d'e".to_string(),
        commands: vec![CommandBuilder::todo("x").build(); 12],
    };
    assert_eq!(
        debug_report_text(Some("<q>".to_string()), 40, Some(&mode)),
        strings(&["state: Error(<q>)", "builtin: 40", "mode: m", "  'd'e'", "  commands: 12"])
    );
    assert_eq!(
        debug_report_text::<Tag>(None, 0, None),
        strings(&["state: Ok", "builtin: 0", "no mode"])
    );
}
