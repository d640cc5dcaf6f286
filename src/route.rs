use vstd::prelude::*;
use crate::error::{Error, error_text};
use crate::instruction::{Instruction, InstructionView, parse_spec};
use crate::output::{Output, Result};
use crate::registry::Registry;

verus! {

/// The message of the reply to an instruction that names no registered command.
pub const INVALID_COMMAND: &'static str = "Invalid command!";

/// Where a raw instruction leads.
pub enum Route<'a, C> {
    /// Answered at once, without reaching a command.
    Reply(Output),
    /// The command's help was asked for.
    Help(&'a C, Instruction),
    /// The command is to run on the instruction.
    Run(&'a C, Instruction),
}

/// Whether a parsed instruction reaches no command: its caller is not the
/// one required, or is not registered.
pub open spec fn not_found<C>(m: Map<Seq<char>, C>, v: InstructionView, on_caller: Option<Seq<char>>) -> bool {
    (on_caller matches Some(c) && c != v.caller) || !m.contains_key(v.caller)
}

/// Whether a parsed instruction asks for help: its first positional argument
/// is the help token.
pub open spec fn asks_help(v: InstructionView, help: Seq<char>) -> bool {
    v.args.len() > 0 && v.args[0] == help
}

pub open spec fn opt_view(o: Option<&String>) -> Option<Seq<char>> {
    match o {
        Some(s) => Some(s@),
        None => None,
    }
}

/// Decides where `input` leads. A parse failure is answered with `Error(0)`
/// and the error's name; an instruction whose caller is not registered (or
/// is not `on_caller`, when that is given) with `Error(0)` and
/// `Invalid command!`. Otherwise the registered command is handed back with
/// the instruction, for its help when the first positional argument is the
/// help token, else to run.
pub fn route<'a, C>(registry: &'a Registry<C>, input: &str, on_caller: Option<&String>) -> (r: Route<'a, C>)
    requires
        registry.wf(),
    ensures
        match parse_spec(input@) {
            Err(e) => r matches Route::Reply(o) && o.result == Result::Error(0) && o.message@ == error_text(e),
            Ok(v) => if not_found(registry@, v, opt_view(on_caller)) {
                r matches Route::Reply(o) && o.result == Result::Error(0) && o.message@ == INVALID_COMMAND@
            } else if asks_help(v, registry.help()) {
                r matches Route::Help(c, ins) && *c == registry@[v.caller] && ins@ == v
            } else {
                r matches Route::Run(c, ins) && *c == registry@[v.caller] && ins@ == v
            },
        },
{
    let ins = match Instruction::new(input) {
        Ok(ins) => ins,
        Err(e) => {
            return Route::Reply(Output::new_error(0, Some(e.to_string().as_str())));
        },
    };
    if let Some(c) = on_caller {
        if *c != ins.caller {
            return Route::Reply(Output::new_error(0, Some(INVALID_COMMAND)));
        }
    }
    match registry.lookup(&ins.caller) {
        None => Route::Reply(Output::new_error(0, Some(INVALID_COMMAND))),
        Some(c) => {
            if ins.args.len() > 0 && ins.args[0] == *registry.help_token() {
                Route::Help(c, ins)
            } else {
                Route::Run(c, ins)
            }
        },
    }
}

} // verus!
