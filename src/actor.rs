use vstd::prelude::*;
use crate::engine::DEFAULT_HELP_TOKEN;
use crate::error::{Error, error_text};
use crate::instruction::{Instruction, parse_spec};
use crate::output::{Output, Result};
use crate::registry::{Registry, insert_spec};
use crate::route::{Route, route, asks_help, not_found, INVALID_COMMAND};

verus! {

/// A request to the engine. The engine takes them one at a time, in the order
/// they arrive.
pub enum Directive<C> {
    /// Register `command` under `name`.
    CommandAdd { name: String, command: C },
    /// Remove the command registered under `name`.
    CommandRemove { name: String },
    /// Parse `input` and route it, only to `on_caller` when that is given.
    Execute { input: String, on_caller: Option<String> },
    /// Ask whether a command is registered under `name`.
    Exists { name: String },
    /// Stop the engine.
    Close,
}

/// The engine's answer to a directive.
pub enum Reply<C> {
    /// The outcome of a `CommandAdd`.
    Added(core::result::Result<(), Error>),
    /// A `CommandRemove` was applied; nobody waits for this.
    Removed,
    /// An `Execute` answered at once, without a command.
    Output(Output),
    /// An `Execute` that asks for the command's help: the requester replies
    /// with `Ok(0)` and the help.
    Help(C, Instruction),
    /// An `Execute` to run: the requester runs the command on the instruction,
    /// outside the engine's turn.
    Run(C, Instruction),
    /// The answer to an `Exists`.
    Found(bool),
    /// The engine has stopped.
    Closed,
    /// The engine takes no more directives.
    Rejected(Error),
}

/// The abstract state of the engine: its commands, its help token, and
/// whether it is running.
pub struct ActorState<C> {
    pub commands: Map<Seq<char>, C>,
    pub help: Seq<char>,
    pub running: bool,
}

/// The state after directive `d`.
pub open spec fn after<C>(s: ActorState<C>, d: Directive<C>) -> ActorState<C> {
    if !s.running {
        s
    } else {
        match d {
            Directive::CommandAdd { name, command } => ActorState {
                commands: insert_spec(s.commands, s.help, name@, command).0,
                ..s
            },
            Directive::CommandRemove { name } => ActorState { commands: s.commands.remove(name@), ..s },
            Directive::Execute { .. } => s,
            Directive::Exists { .. } => s,
            Directive::Close => ActorState { running: false, ..s },
        }
    }
}

pub open spec fn opt_string_view(o: Option<String>) -> Option<Seq<char>> {
    match o {
        Some(s) => Some(s@),
        None => None,
    }
}

/// Whether `r` is the reply owed to directive `d` in state `s`.
pub open spec fn reply_fits<C: Clone>(s: ActorState<C>, d: Directive<C>, r: Reply<C>) -> bool {
    if !s.running {
        r == Reply::<C>::Rejected(Error::NotRunning)
    } else {
        match d {
            Directive::CommandAdd { name, command } => r == Reply::<C>::Added(
                insert_spec(s.commands, s.help, name@, command).1,
            ),
            Directive::CommandRemove { .. } => r == Reply::<C>::Removed,
            Directive::Execute { input, on_caller } => match parse_spec(input@) {
                Err(e) => r matches Reply::Output(o) && o.result == Result::Error(0) && o.message@
                    == error_text(e),
                Ok(v) => if not_found(s.commands, v, opt_string_view(on_caller)) {
                    r matches Reply::Output(o) && o.result == Result::Error(0) && o.message@
                        == INVALID_COMMAND@
                } else if asks_help(v, s.help) {
                    r matches Reply::Help(c, ins) && vstd::pervasive::cloned(s.commands[v.caller], c)
                        && ins@ == v
                } else {
                    r matches Reply::Run(c, ins) && vstd::pervasive::cloned(s.commands[v.caller], c)
                        && ins@ == v
                },
            },
            Directive::Exists { name } => r == Reply::<C>::Found(s.commands.contains_key(name@)),
            Directive::Close => r == Reply::<C>::Closed,
        }
    }
}

/// The engine's decision core: it owns the registry, and takes directives
/// one at a time. Commands are never run here: an `Execute` hands back a
/// clone of the shared command handle, so a slow command never holds up the
/// registry.
pub struct Actor<C> {
    registry: Registry<C>,
    running: bool,
}

impl<C> Actor<C> {
    pub closed spec fn wf(&self) -> bool {
        self.registry.wf()
    }

    /// The abstract state.
    pub closed spec fn state(&self) -> ActorState<C> {
        ActorState { commands: self.registry@, help: self.registry.help(), running: self.running }
    }

    /// A running engine with no command, reserving `help_token`.
    pub fn new(help_token: String) -> (r: Self)
        ensures
            r.wf(),
            r.state() == (ActorState {
                commands: Map::<Seq<char>, C>::empty(),
                help: help_token@,
                running: true,
            }),
    {
        Actor { registry: Registry::new(help_token), running: true }
    }

    /// Whether the engine still takes directives.
    pub fn is_running(&self) -> (r: bool)
        ensures
            r == self.state().running,
    {
        self.running
    }
}

impl<C: Clone> Actor<C> {
    /// Takes one directive: applies it to the registry and gives the reply
    /// owed. Once the engine is closed every directive is rejected with
    /// `NotRunning`.
    pub fn handle(&mut self, d: Directive<C>) -> (r: Reply<C>)
        requires
            old(self).wf(),
        ensures
            final(self).wf(),
            final(self).state() == after(old(self).state(), d),
            reply_fits(old(self).state(), d, r),
    {
        if !self.running {
            return Reply::Rejected(Error::NotRunning);
        }
        match d {
            Directive::CommandAdd { name, command } => Reply::Added(self.registry.insert(name, command)),
            Directive::CommandRemove { name } => {
                let _ = self.registry.remove(&name);
                Reply::Removed
            },
            Directive::Execute { input, on_caller } => {
                let target = match &on_caller {
                    Some(c) => Some(c),
                    None => None,
                };
                match route(&self.registry, input.as_str(), target) {
                    Route::Reply(o) => Reply::Output(o),
                    Route::Help(c, ins) => Reply::Help(c.clone(), ins),
                    Route::Run(c, ins) => Reply::Run(c.clone(), ins),
                }
            },
            Directive::Exists { name } => Reply::Found(self.registry.contains(&name)),
            Directive::Close => {
                self.running = false;
                Reply::Closed
            },
        }
    }
}

/// The settings of an engine: the help token it reserves.
#[derive(Clone, Debug)]
pub struct EngineConfig {
    pub help_caller: String,
}

impl EngineConfig {
    /// The default settings: the help token is `help`.
    pub fn new() -> (r: Self)
        ensures
            r.help_caller@ == DEFAULT_HELP_TOKEN@,
    {
        EngineConfig { help_caller: String::from_str(DEFAULT_HELP_TOKEN) }
    }
}

/// The default capacity of the queue of directives.
pub const DEFAULT_BUFFER: usize = 32;

/// Whether an engine is running, for the one process that owns this value.
pub struct Lifecycle {
    running: bool,
}

impl Lifecycle {
    pub closed spec fn running(&self) -> bool {
        self.running
    }

    /// No engine running yet.
    pub fn new() -> (r: Self)
        ensures
            !r.running(),
    {
        Lifecycle { running: false }
    }

    /// Marks the engine as stopped, once its loop has ended.
    pub fn stop(&mut self)
        ensures
            !final(self).running(),
    {
        self.running = false;
    }
}

/// Settings for starting an engine: the capacity of its queue and its help token.
#[derive(Clone, Debug)]
pub struct EngineBuilder {
    buffer: usize,
    config: EngineConfig,
}

impl EngineBuilder {
    pub closed spec fn spec_buffer(&self) -> usize {
        self.buffer
    }

    pub closed spec fn spec_help(&self) -> Seq<char> {
        self.config.help_caller@
    }

    /// A queue of 32 directives and the help token `help`.
    pub fn new() -> (r: Self)
        ensures
            r.spec_buffer() == DEFAULT_BUFFER,
            r.spec_help() == DEFAULT_HELP_TOKEN@,
    {
        EngineBuilder { buffer: DEFAULT_BUFFER, config: EngineConfig::new() }
    }

    /// Sets the capacity of the queue of directives.
    pub fn buffer(self, buffer: usize) -> (r: Self)
        ensures
            r.spec_buffer() == buffer,
            r.spec_help() == self.spec_help(),
    {
        let mut b = self;
        b.buffer = buffer;
        b
    }

    /// Sets the help token.
    pub fn help_caller(self, help_caller: &str) -> (r: Self)
        ensures
            r.spec_buffer() == self.spec_buffer(),
            r.spec_help() == help_caller@,
    {
        let mut b = self;
        b.config.help_caller = String::from_str(help_caller);
        b
    }

    /// The capacity of the queue of directives.
    pub fn get_buffer(&self) -> (r: usize)
        ensures
            r == self.spec_buffer(),
    {
        self.buffer
    }

    /// Whether an engine is running.
    pub fn is_running(lifecycle: &Lifecycle) -> (r: bool)
        ensures
            r == lifecycle.running(),
    {
        lifecycle.running
    }

    /// Starts an engine: fails with `AlreadyRunning` when one is running,
    /// else marks one as running and gives its decision core.
    pub fn build<C>(self, lifecycle: &mut Lifecycle) -> (r: core::result::Result<Actor<C>, Error>)
        ensures
            final(lifecycle).running(),
            old(lifecycle).running() ==> r == Err::<Actor<C>, Error>(Error::AlreadyRunning),
            !old(lifecycle).running() ==> (r matches Ok(a) && a.wf() && a.state() == (ActorState {
                commands: Map::<Seq<char>, C>::empty(),
                help: self.spec_help(),
                running: true,
            })),
    {
        if lifecycle.running {
            return Err(Error::AlreadyRunning);
        }
        lifecycle.running = true;
        Ok(Actor::new(self.config.help_caller))
    }
}

} // verus!
