use std::cell::Cell;

use command_engine::{
    Actor, Command, CommandInfo, Directive, Engine, EngineBuilder, Error, Instruction, Lifecycle, Output,
    Registry, Reply, Result, INVALID_COMMAND,
};

const CALLER: &str = "test";

struct TestCommand;

impl CommandInfo for TestCommand {
    fn caller(&self) -> &str {
        CALLER
    }
}

impl Command for TestCommand {
    fn on_execute(&self, ins: &Instruction) -> Output {
        Output::new_ok(1, Some(ins.caller.as_str()))
    }
}

#[test]
fn command() {
    let cmd = TestCommand;
    let mut ins = Instruction::empty();
    ins.caller = CALLER.to_string();
    let output = cmd.on_execute(&ins);
    assert_eq!(CALLER, cmd.caller(), "TestCommand has different caller!");
    assert_eq!(CALLER, output.message, "TestCommand returned different caller as output!");
}

struct FormatCommand;

impl CommandInfo for FormatCommand {
    fn caller(&self) -> &str {
        "fmt"
    }
}

impl Command for FormatCommand {
    fn on_execute(&self, ins: &Instruction) -> Output {
        let o_args: Vec<String> = ins.o_args.iter().map(|(k, v)| format!("{:?}: {:?}", k, v)).collect();
        let text = format!(
            "Instruction {{ caller: {:?}, args: {:?}, o_args: {{{}}}, input: {:?} }}",
            ins.caller,
            ins.args,
            o_args.join(", "),
            ins.input
        );
        Output::new_ok(1, Some(text.as_str()))
    }
}

#[test]
fn engine() {
    const EXPECTED_OUTPUT: &str = r#"Instruction { caller: "fmt", args: ["arg"], o_args: {"--o_arg": Some(["sub_arg"])}, input: "fmt arg --o_arg sub_arg" }"#;

    let mut engine = Engine::new();
    assert!(engine.is_empty(), "Engine should be empty if no commands were added!");

    engine.add_separated(FormatCommand).unwrap();
    assert!(!engine.is_empty(), "Engine shouldn't be empty if commands were added!");

    let output = engine.execute("fmt arg --o_arg sub_arg");
    assert_eq!(output.result, Result::Success(1), "Valid instruction should execute without error!");
    assert_eq!(EXPECTED_OUTPUT, output.message);
}

struct Counting<'a> {
    runs: &'a Cell<u32>,
}

impl<'a> CommandInfo for Counting<'a> {
    fn caller(&self) -> &str {
        "cnt"
    }

    fn on_help(&self, _ins: &Instruction) -> String {
        "counts its runs".to_string()
    }
}

impl<'a> Command for Counting<'a> {
    fn on_execute(&self, _ins: &Instruction) -> Output {
        self.runs.set(self.runs.get() + 1);
        Output::new_ok(1, None)
    }
}

#[test]
fn help_is_served_without_running_the_command() {
    let runs = Cell::new(0);
    let engine = Engine::new().add(Counting { runs: &runs });
    let out = engine.execute("cnt help more args");
    assert_eq!(out.result, Result::Success(0));
    assert_eq!(out.message, "counts its runs");
    assert_eq!(runs.get(), 0);
    let out = engine.execute("cnt x");
    assert_eq!(out.result, Result::Success(1));
    assert_eq!(runs.get(), 1);
    // "help" later than the first positional argument does not ask for help
    let _ = engine.execute("cnt x help");
    assert_eq!(runs.get(), 2);
}

#[test]
fn default_help_is_compact() {
    let engine = Engine::new().add(TestCommand);
    let out = engine.execute("test help");
    assert_eq!(out.result, Result::Success(0));
    assert_eq!(out.message, "test  ");
}

#[test]
fn unknown_and_malformed_instructions() {
    let engine = Engine::new().add(TestCommand);
    let out = engine.execute("nope a b");
    assert_eq!(out.result, Result::Error(0));
    assert_eq!(out.message, INVALID_COMMAND);
    let out = engine.execute("   ");
    assert_eq!(out.result, Result::Error(0));
    assert_eq!(out.message, "MissingCaller");
    let out = engine.execute_on_caller("test a", &"other".to_string());
    assert_eq!(out.result, Result::Error(0));
    assert_eq!(out.message, INVALID_COMMAND);
    let out = engine.execute_on_caller("test a", &"test".to_string());
    assert_eq!(out.result, Result::Success(1));
}

#[test]
fn engine_duplicates_remove_and_lookup() {
    let mut engine = Engine::new();
    assert_eq!(engine.add_separated(TestCommand), Ok(()));
    assert_eq!(engine.add_separated(TestCommand), Err(Error::DuplicateName));
    assert!(engine.contains(&"test".to_string()));
    assert!(engine.get_command(&"test".to_string()).is_some());
    assert!(engine.remove(&"test".to_string()).is_some());
    assert!(engine.remove(&"test".to_string()).is_none());
    assert!(engine.is_empty());
    assert_eq!(engine.insert("help".to_string(), TestCommand), Err(Error::DuplicateName));
    assert_eq!(engine.insert("other".to_string(), TestCommand), Ok(()));
    assert!(engine.contains(&"other".to_string()));
}

#[test]
fn registry_duplicate_keeps_original() {
    let mut reg: Registry<u32> = Registry::new("help".to_string());
    assert_eq!(reg.insert("a".to_string(), 1), Ok(()));
    assert_eq!(reg.insert("a".to_string(), 2), Err(Error::DuplicateName));
    assert_eq!(reg.lookup(&"a".to_string()), Some(&1));
    assert_eq!(reg.insert("help".to_string(), 3), Err(Error::DuplicateName));
    assert_eq!(reg.lookup(&"help".to_string()), None);
    assert!(!reg.contains(&"help".to_string()));
    assert_eq!(reg.help_token(), "help");
    assert_eq!(reg.remove(&"a".to_string()), Some(1));
    assert_eq!(reg.remove(&"a".to_string()), None);
    assert!(reg.is_empty());
}

fn add(name: &str, c: u32) -> Directive<u32> {
    Directive::CommandAdd { name: name.to_string(), command: c }
}

fn query(name: &str) -> Directive<u32> {
    Directive::Exists { name: name.to_string() }
}

fn is_added_ok(r: &Reply<u32>) -> bool {
    matches!(r, Reply::Added(Ok(())))
}

#[test]
fn distinct_adds_all_succeed() {
    let mut actor: Actor<u32> = Actor::new("help".to_string());
    let names = ["a", "b", "c", "d", "e", "f", "g", "h"];
    for (i, n) in names.iter().enumerate() {
        assert!(is_added_ok(&actor.handle(add(n, i as u32))));
    }
    for n in names.iter() {
        assert!(matches!(actor.handle(query(n)), Reply::Found(true)));
    }
    assert!(matches!(actor.handle(query("z")), Reply::Found(false)));
}

#[test]
fn same_name_adds_one_wins() {
    let mut actor: Actor<u32> = Actor::new("help".to_string());
    let r1 = actor.handle(add("x", 1));
    let r2 = actor.handle(add("x", 2));
    assert!(is_added_ok(&r1));
    assert!(matches!(r2, Reply::Added(Err(Error::DuplicateName))));
    assert!(matches!(actor.handle(add("help", 3)), Reply::Added(Err(Error::DuplicateName))));
}

#[test]
fn actor_execute_routes() {
    let mut actor: Actor<u32> = Actor::new("help".to_string());
    assert!(is_added_ok(&actor.handle(add("run", 7))));
    match actor.handle(Directive::Execute { input: "run a --f b".to_string(), on_caller: None }) {
        Reply::Run(c, ins) => {
            assert_eq!(c, 7);
            assert_eq!(ins.args, vec!["a".to_string()]);
        },
        _ => panic!("expected a command to run"),
    }
    match actor.handle(Directive::Execute { input: "run help".to_string(), on_caller: None }) {
        Reply::Help(c, ins) => {
            assert_eq!(c, 7);
            assert_eq!(ins.caller, "run");
        },
        _ => panic!("expected help"),
    }
    match actor.handle(Directive::Execute { input: "run".to_string(), on_caller: Some("other".to_string()) }) {
        Reply::Output(o) => {
            assert_eq!(o.result, Result::Error(0));
            assert_eq!(o.message, INVALID_COMMAND);
        },
        _ => panic!("expected a failure"),
    }
    match actor.handle(Directive::Execute { input: "--x".to_string(), on_caller: None }) {
        Reply::Output(o) => {
            assert_eq!(o.result, Result::Error(0));
            assert_eq!(o.message, "MissingCaller");
        },
        _ => panic!("expected a failure"),
    }
    assert!(matches!(actor.handle(Directive::CommandRemove { name: "run".to_string() }), Reply::Removed));
    assert!(matches!(actor.handle(query("run")), Reply::Found(false)));
}

#[test]
fn closed_actor_rejects_everything() {
    let mut actor: Actor<u32> = Actor::new("help".to_string());
    assert!(is_added_ok(&actor.handle(add("a", 1))));
    assert!(matches!(actor.handle(Directive::Close), Reply::Closed));
    assert!(!actor.is_running());
    assert!(matches!(actor.handle(add("b", 2)), Reply::Rejected(Error::NotRunning)));
    assert!(matches!(actor.handle(query("a")), Reply::Rejected(Error::NotRunning)));
    assert!(matches!(
        actor.handle(Directive::Execute { input: "a".to_string(), on_caller: None }),
        Reply::Rejected(Error::NotRunning)
    ));
    assert!(matches!(actor.handle(Directive::Close), Reply::Rejected(Error::NotRunning)));
}

#[test]
fn builder_and_lifecycle() {
    let mut life = Lifecycle::new();
    assert!(!EngineBuilder::is_running(&life));
    let b = EngineBuilder::new().buffer(8).help_caller("?");
    assert_eq!(b.get_buffer(), 8);
    let mut actor: Actor<u32> = b.clone().build(&mut life).unwrap();
    assert!(EngineBuilder::is_running(&life));
    assert!(matches!(b.build::<u32>(&mut life), Err(Error::AlreadyRunning)));
    assert!(matches!(actor.handle(add("?", 1)), Reply::Added(Err(Error::DuplicateName))));
    assert!(is_added_ok(&actor.handle(add("help", 1))));
    life.stop();
    assert!(!EngineBuilder::is_running(&life));
    assert_eq!(EngineBuilder::new().get_buffer(), 32);
}
