use vstd::prelude::*;
use crate::command::{Command, CommandInfo};
use crate::error::{Error, error_text};
use crate::instruction::parse_spec;
use crate::output::{Output, Result};
use crate::registry::{Registry, insert_spec};
use crate::route::{Route, route, asks_help, not_found, INVALID_COMMAND};

verus! {

/// The help token that engines reserve unless told otherwise.
pub const DEFAULT_HELP_TOKEN: &'static str = "help";

/// An engine that owns its commands and runs them in the caller's turn.
pub struct Engine<C> {
    registry: Registry<C>,
}

/// The engine for commands that run asynchronously: the same table and the
/// same routing (`Engine::route`); awaiting the command is the caller's part.
pub type AsyncEngine<C> = Engine<C>;

impl<C> View for Engine<C> {
    type V = Map<Seq<char>, C>;

    closed spec fn view(&self) -> Map<Seq<char>, C> {
        self.registry@
    }
}

impl<C> Engine<C> {
    pub closed spec fn wf(&self) -> bool {
        self.registry.wf()
    }

    /// The reserved help token.
    pub closed spec fn help(&self) -> Seq<char> {
        self.registry.help()
    }

    /// An engine with no command, reserving `help`.
    pub fn new() -> (r: Self)
        ensures
            r.wf(),
            r@ == Map::<Seq<char>, C>::empty(),
            r.help() == DEFAULT_HELP_TOKEN@,
    {
        Engine { registry: Registry::new(String::from_str(DEFAULT_HELP_TOKEN)) }
    }

    /// Registers `command` under `name`: see `Registry::insert`.
    pub fn insert(&mut self, name: String, command: C) -> (r: core::result::Result<(), Error>)
        requires
            old(self).wf(),
        ensures
            final(self).wf(),
            final(self).help() == old(self).help(),
            (final(self)@, r) == insert_spec(old(self)@, old(self).help(), name@, command),
    {
        self.registry.insert(name, command)
    }

    /// Removes the command registered under `name` and returns it.
    pub fn remove(&mut self, name: &String) -> (r: Option<C>)
        requires
            old(self).wf(),
        ensures
            final(self).wf(),
            final(self).help() == old(self).help(),
            final(self)@ == old(self)@.remove(name@),
            r == (if old(self)@.contains_key(name@) { Some(old(self)@[name@]) } else { None::<C> }),
    {
        self.registry.remove(name)
    }

    /// Whether the engine holds no command.
    pub fn is_empty(&self) -> (r: bool)
        ensures
            r == (self@ == Map::<Seq<char>, C>::empty()),
    {
        self.registry.is_empty()
    }

    /// Whether a command is registered under `name`.
    pub fn contains(&self, name: &String) -> (r: bool)
        ensures
            r == self@.contains_key(name@),
    {
        self.registry.contains(name)
    }

    /// Decides where `input` leads: see `route`.
    pub fn route(&self, input: &str, on_caller: Option<&String>) -> (r: Route<'_, C>)
        requires
            self.wf(),
        ensures
            match parse_spec(input@) {
                Err(e) => r matches Route::Reply(o) && o.result == Result::Error(0) && o.message@
                    == error_text(e),
                Ok(v) => if not_found(self@, v, crate::route::opt_view(on_caller)) {
                    r matches Route::Reply(o) && o.result == Result::Error(0) && o.message@
                        == INVALID_COMMAND@
                } else if asks_help(v, self.help()) {
                    r matches Route::Help(c, ins) && *c == self@[v.caller] && ins@ == v
                } else {
                    r matches Route::Run(c, ins) && *c == self@[v.caller] && ins@ == v
                },
            },
    {
        route(&self.registry, input, on_caller)
    }

    /// The command registered under `name`, if any.
    pub fn get_command(&self, name: &String) -> (r: Option<&C>)
        requires
            self.wf(),
        ensures
            match r {
                Some(c) => self@.contains_key(name@) && *c == self@[name@],
                None => !self@.contains_key(name@),
            },
    {
        self.registry.lookup(name)
    }
}

impl<C: CommandInfo> Engine<C> {
    /// Registers `command` under the name it reports. Fails with
    /// `DuplicateName`, changing nothing, when that name is taken or is the
    /// help token.
    pub fn add_separated(&mut self, command: C) -> (r: core::result::Result<(), Error>)
        requires
            old(self).wf(),
        ensures
            final(self).wf(),
            final(self).help() == old(self).help(),
            exists|n: Seq<char>| (final(self)@, r) == insert_spec(old(self)@, old(self).help(), n, command),
    {
        let name = String::from_str(command.caller());
        let ghost n = name@;
        let r = self.registry.insert(name, command);
        assert((self@, r) == insert_spec(old(self)@, old(self).help(), n, command));
        r
    }

    /// Registers `command` under the name it reports and hands the engine
    /// back; a command whose name is taken (or is the help token) is left out.
    pub fn add(self, command: C) -> (r: Self)
        requires
            self.wf(),
        ensures
            r.wf(),
            r.help() == self.help(),
            exists|n: Seq<char>| r@ == insert_spec(self@, self.help(), n, command).0,
    {
        let mut e = self;
        let _ = e.add_separated(command);
        e
    }
}

impl<C: Command> Engine<C> {
    /// Parses `input` and runs the command it names. A parse failure gives
    /// `Error(0)` with the error's name, an unknown caller `Error(0)` with
    /// `Invalid command!`, and the help token as first positional argument
    /// `Ok(0)` with the command's help, without running it.
    pub fn execute(&self, input: &str) -> (r: Output)
        requires
            self.wf(),
        ensures
            match parse_spec(input@) {
                Err(e) => r.result == Result::Error(0) && r.message@ == error_text(e),
                Ok(v) => if not_found(self@, v, None) {
                    r.result == Result::Error(0) && r.message@ == INVALID_COMMAND@
                } else if asks_help(v, self.help()) {
                    r.result == Result::Success(0)
                } else {
                    true
                },
            },
    {
        self.dispatch(input, None)
    }

    /// As `execute`, but only a command called `caller` may run.
    pub fn execute_on_caller(&self, input: &str, caller: &String) -> (r: Output)
        requires
            self.wf(),
        ensures
            match parse_spec(input@) {
                Err(e) => r.result == Result::Error(0) && r.message@ == error_text(e),
                Ok(v) => if not_found(self@, v, Some(caller@)) {
                    r.result == Result::Error(0) && r.message@ == INVALID_COMMAND@
                } else if asks_help(v, self.help()) {
                    r.result == Result::Success(0)
                } else {
                    true
                },
            },
    {
        self.dispatch(input, Some(caller))
    }

    fn dispatch(&self, input: &str, on_caller: Option<&String>) -> (r: Output)
        requires
            self.wf(),
        ensures
            match parse_spec(input@) {
                Err(e) => r.result == Result::Error(0) && r.message@ == error_text(e),
                Ok(v) => if not_found(self@, v, crate::route::opt_view(on_caller)) {
                    r.result == Result::Error(0) && r.message@ == INVALID_COMMAND@
                } else if asks_help(v, self.help()) {
                    r.result == Result::Success(0)
                } else {
                    true
                },
            },
    {
        match self.route(input, on_caller) {
            Route::Reply(o) => o,
            Route::Help(c, ins) => {
                let text = c.on_help(&ins);
                Output::new_ok(0, Some(text.as_str()))
            },
            Route::Run(c, ins) => c.on_execute(&ins),
        }
    }
}

} // verus!
