//! A command-dispatch engine: a parser for instructions of the shape
//! `caller args... --flag sub_args...`, a registry of named commands, the
//! decision core of an engine that serialises requests to that registry, and
//! the status encoding that every execution returns.

mod actor;
mod builtins;
mod command;
mod engine;
mod error;
mod help;
mod instruction;
pub mod laws;
mod output;
mod registry;
mod route;

pub use actor::{Actor, ActorState, Directive, EngineBuilder, EngineConfig, Lifecycle, Reply, DEFAULT_BUFFER};
pub use builtins::{Cp, CpAction, Cwd, CwdPlan, Env, EnvPlan, Ld, LdAction, ERR_ARGUMENTS_NUM, ERR_NOT_A_DIR_PATH};
pub use command::{Command, CommandInfo};
pub use engine::{AsyncEngine, Engine, DEFAULT_HELP_TOKEN};
pub use error::Error;
pub use help::{Help, SubArg, parse_desc};
pub use instruction::{Instruction, InstructionView, Mode, ScanState, is_flag_token};
pub use registry::Registry;
pub use route::{Route, route, INVALID_COMMAND};
pub use output::{Output, Result, MAX_PRIME, OK_BASE, ERROR_BASE};
