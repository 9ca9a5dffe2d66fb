use citrs::sh::cmd::builder::CommandBuilder;
use citrs::sh::cmd::{Action, Behavior, Command};
use citrs::sh::flag::Flag;
use citrs::sh::mode::Mode;
use citrs::sh::{Shell, State};

/// An action given as a plain function.
#[derive(Clone, Copy, Debug, PartialEq)]
struct FnAction(fn(&mut Shell<FnAction>, Vec<String>) -> Result<(), String>);

impl Action for FnAction {
    fn invoke(&self, shell: &mut Shell<FnAction>, args: Vec<String>) -> Result<(), String> {
        (self.0)(shell, args)
    }
}

fn echo_failure(_shell: &mut Shell<FnAction>, args: Vec<String>) -> Result<(), String> {
    Err(format!("failed with {}", args.join(",")))
}

fn remember_args(shell: &mut Shell<FnAction>, args: Vec<String>) -> Result<(), String> {
    shell.set_flag("args", Flag::String(args.join("|")));
    shell.set_flag("count", Flag::Int(args.len() as i32));
    Ok(())
}

fn select_second(shell: &mut Shell<FnAction>, _args: Vec<String>) -> Result<(), String> {
    shell.set_mode(Some(1));
    Ok(())
}

fn named(name: &str, description: &str, aliases: Vec<&str>) -> Command<FnAction> {
    CommandBuilder::new(name, description).aliases(aliases).build()
}

fn mode(name: &str, commands: Vec<Command<FnAction>>) -> Mode<FnAction> {
    Mode { name: name.to_string(), description: format!("{} mode", name), commands }
}

/// Two builtin commands and two modes; `shared` is an alias in all of them.
fn sample() -> Shell<FnAction> {
    let mut shell = Shell::new();
    shell.add_command(named("first", "builtin one", vec!["1", "shared"]));
    shell.add_command(named("second", "builtin two", vec!["2", "shared"]));
    shell.add_mode(mode("alpha", vec![named("a", "in alpha", vec!["shared", "first", "only-a"])]));
    shell.add_mode(mode(
        "beta",
        vec![named("b", "in beta", vec!["only-b"]), named("b2", "in beta too", vec!["only-b"])],
    ));
    shell
}

fn names(commands: &[Command<FnAction>]) -> Vec<String> {
    commands.iter().map(|c| c.name.clone()).collect()
}

#[test]
fn new_shell_is_empty_and_okay() {
    let shell: Shell<FnAction> = Shell::new();
    assert_eq!(*shell.state(), State::Okay);
    assert_eq!(shell.current_mode(), None);
    assert!(shell.mode().is_none());
    assert!(shell.modes().is_empty());
    assert!(shell.builtin().is_empty());
    assert!(shell.commands().is_empty());
    assert_eq!(shell.get_flag("anything"), None);
    let other: Shell<FnAction> = Shell::default();
    assert_eq!(*other.state(), State::Okay);
    assert!(other.commands().is_empty());
}

#[test]
fn err_and_ok_set_the_state() {
    let mut shell: Shell<FnAction> = Shell::new();
    shell.err("error message".to_string());
    assert_eq!(*shell.state(), State::Error("error message".to_string()));
    shell.err("another".to_string());
    assert_eq!(*shell.state(), State::Error("another".to_string()));
    shell.ok();
    assert_eq!(*shell.state(), State::Okay);
}

#[test]
fn registration_appends_in_order() {
    let mut shell = sample();
    assert_eq!(names(shell.builtin()), vec!["first", "second"]);
    shell.add_commands(vec![named("third", "", vec![]), named("fourth", "", vec![])]);
    assert_eq!(names(shell.builtin()), vec!["first", "second", "third", "fourth"]);
    shell.set_mode(Some(1));
    shell.add_modes(vec![mode("gamma", vec![]), mode("delta", vec![])]);
    let listed: Vec<String> = shell.modes().iter().map(|m| m.name.clone()).collect();
    assert_eq!(listed, vec!["alpha", "beta", "gamma", "delta"]);
    assert_eq!(shell.current_mode(), Some(1));
    assert_eq!(shell.mode().unwrap().name, "beta");
}

#[test]
fn set_mode_in_range_selects() {
    let mut shell = sample();
    shell.set_mode(Some(0));
    assert_eq!(shell.current_mode(), Some(0));
    assert_eq!(shell.mode().unwrap().name, "alpha");
    shell.set_mode(Some(1));
    assert_eq!(shell.current_mode(), Some(1));
    assert_eq!(shell.mode().unwrap().name, "beta");
}

#[test]
fn set_mode_out_of_range_is_ignored() {
    let mut shell = sample();
    shell.set_mode(Some(2));
    assert_eq!(shell.current_mode(), None);
    shell.set_mode(Some(1));
    shell.set_mode(Some(2));
    assert_eq!(shell.current_mode(), Some(1));
    shell.set_mode(Some(usize::MAX));
    assert_eq!(shell.current_mode(), Some(1));
    let mut empty: Shell<FnAction> = Shell::new();
    empty.set_mode(Some(0));
    assert_eq!(empty.current_mode(), None);
}

#[test]
fn set_mode_none_always_clears() {
    let mut shell = sample();
    shell.set_mode(None);
    assert_eq!(shell.current_mode(), None);
    shell.set_mode(Some(1));
    shell.set_mode(None);
    assert_eq!(shell.current_mode(), None);
    assert!(shell.mode().is_none());
}

#[test]
fn commands_are_builtin_then_active_mode() {
    let mut shell = sample();
    assert_eq!(names(&shell.commands()), vec!["first", "second"]);
    shell.set_mode(Some(0));
    assert_eq!(names(&shell.commands()), vec!["first", "second", "a"]);
    shell.set_mode(Some(1));
    let all = shell.commands();
    assert_eq!(names(&all), vec!["first", "second", "b", "b2"]);
    assert_eq!(all.len(), shell.builtin().len() + shell.mode().unwrap().commands.len());
    assert_eq!(&all[..2], &shell.builtin()[..]);
    shell.set_mode(None);
    assert_eq!(shell.commands().len(), shell.builtin().len());
}

#[test]
fn find_command_resolves_every_alias() {
    let mut shell = sample();
    shell.set_mode(Some(1));
    for command in shell.commands() {
        for alias in command.aliases.iter() {
            let found = shell.find_command(alias).unwrap();
            assert!(found.aliases.contains(alias));
            if alias != "shared" && alias != "only-b" {
                assert_eq!(found, command);
            }
        }
    }
    assert_eq!(shell.find_command("2").unwrap().name, "second");
    assert_eq!(shell.find_command("only-b").unwrap().name, "b");
    assert_eq!(shell.find_command("b2").unwrap().name, "b2");
}

#[test]
fn find_command_fails_for_unknown_names() {
    let mut shell = sample();
    assert_eq!(shell.find_command("nope"), Err("command not found: nope".to_string()));
    assert_eq!(shell.find_command(""), Err("command not found: ".to_string()));
    assert_eq!(shell.find_command("First"), Err("command not found: First".to_string()));
    assert_eq!(shell.find_command("only-a"), Err("command not found: only-a".to_string()));
    shell.set_mode(Some(1));
    assert_eq!(shell.find_command("only-a"), Err("command not found: only-a".to_string()));
    shell.set_mode(Some(0));
    assert_eq!(shell.find_command("only-a").unwrap().name, "a");
    assert_eq!(shell.find_command("only-b"), Err("command not found: only-b".to_string()));
}

#[test]
fn builtin_commands_are_never_shadowed() {
    let mut shell = sample();
    assert_eq!(shell.find_command("shared").unwrap().name, "first");
    assert_eq!(shell.find_command("first").unwrap().name, "first");
    shell.set_mode(Some(0));
    assert_eq!(shell.find_command("shared").unwrap().name, "first");
    assert_eq!(shell.find_command("first").unwrap().description, "builtin one");
    shell.set_mode(Some(1));
    assert_eq!(shell.find_command("shared").unwrap().name, "first");
}

#[test]
fn flags_are_stored_and_overwritten() {
    let mut shell: Shell<FnAction> = Shell::new();
    assert_eq!(shell.get_flag("verbose"), None);
    shell.set_flag("verbose", Flag::Bool(true));
    shell.set_flag("name", Flag::String("me".to_string()));
    shell.set_flag("level", Flag::Int(-3));
    assert_eq!(shell.get_flag("verbose"), Some(&Flag::Bool(true)));
    assert_eq!(shell.get_flag("name"), Some(&Flag::String("me".to_string())));
    assert_eq!(shell.get_flag("level"), Some(&Flag::Int(-3)));
    assert_eq!(shell.get_flag("Verbose"), None);
    shell.set_flag("verbose", Flag::Int(7));
    assert_eq!(shell.get_flag("verbose"), Some(&Flag::Int(7)));
    assert_eq!(shell.get_flag("level"), Some(&Flag::Int(-3)));
}

#[test]
fn switch_mode_selects_the_first_mode_of_that_name() {
    let mut shell = sample();
    shell.add_mode(mode("alpha", vec![]));
    assert_eq!(shell.switch_mode("beta"), Ok(()));
    assert_eq!(shell.current_mode(), Some(1));
    assert_eq!(shell.switch_mode("alpha"), Ok(()));
    assert_eq!(shell.current_mode(), Some(0));
}

#[test]
fn switch_mode_none_clears_unless_a_mode_has_that_name() {
    let mut shell = sample();
    shell.set_mode(Some(1));
    assert_eq!(shell.switch_mode("none"), Ok(()));
    assert_eq!(shell.current_mode(), None);
    shell.add_mode(mode("none", vec![]));
    assert_eq!(shell.switch_mode("none"), Ok(()));
    assert_eq!(shell.current_mode(), Some(2));
}

#[test]
fn switch_mode_fails_for_unknown_names() {
    let mut shell = sample();
    shell.set_mode(Some(0));
    assert_eq!(shell.switch_mode("gamma"), Err("no mode 'gamma'".to_string()));
    assert_eq!(shell.switch_mode("Alpha"), Err("no mode 'Alpha'".to_string()));
    assert_eq!(shell.switch_mode(""), Err("no mode ''".to_string()));
    assert_eq!(shell.current_mode(), Some(0));
}

#[test]
fn handle_line_runs_the_resolved_command_with_the_arguments() {
    let mut shell = sample();
    shell.add_command(
        CommandBuilder::new("keep", "keeps its arguments").alias("k").action(FnAction(remember_args)).build(),
    );
    assert_eq!(shell.handle_line("k one \"two three\"  four".to_string()), Ok(()));
    assert_eq!(shell.get_flag("args"), Some(&Flag::String("one|two three|four".to_string())));
    assert_eq!(shell.get_flag("count"), Some(&Flag::Int(3)));
    assert_eq!(shell.handle_line("keep".to_string()), Ok(()));
    assert_eq!(shell.get_flag("count"), Some(&Flag::Int(0)));
}

#[test]
fn handle_line_reports_each_failure() {
    let mut shell = sample();
    shell.add_command(CommandBuilder::new("fail", "").action(FnAction(echo_failure)).build());
    shell.add_command(CommandBuilder::todo("later").build());
    assert_eq!(shell.handle_line(String::new()), Err("no command provided".to_string()));
    assert_eq!(shell.handle_line(" first".to_string()), Err("no command provided".to_string()));
    assert_eq!(shell.handle_line("missing a".to_string()), Err("command not found: missing".to_string()));
    assert_eq!(shell.handle_line("fail a b".to_string()), Err("failed with a,b".to_string()));
    assert_eq!(shell.handle_line("later".to_string()), Err("not yet implemented".to_string()));
    assert_eq!(shell.handle_line("first".to_string()), Ok(()));
    assert_eq!(*shell.state(), State::Okay);
}

#[test]
fn handle_line_does_not_touch_the_state() {
    let mut shell = sample();
    shell.err("kept".to_string());
    assert_eq!(shell.handle_line("first".to_string()), Ok(()));
    assert_eq!(*shell.state(), State::Error("kept".to_string()));
    assert_eq!(shell.handle_line("missing".to_string()), Err("command not found: missing".to_string()));
    assert_eq!(*shell.state(), State::Error("kept".to_string()));
}

#[test]
fn an_action_changes_the_shell_it_is_given() {
    let mut shell = sample();
    shell.add_command(CommandBuilder::new("go", "").action(FnAction(select_second)).build());
    assert_eq!(shell.handle_line("go".to_string()), Ok(()));
    assert_eq!(shell.current_mode(), Some(1));
    assert_eq!(shell.find_command("only-b").unwrap().name, "b");
    assert_eq!(Behavior::Custom(FnAction(select_second)), shell.find_command("go").unwrap().action);
}
