use vstd::prelude::*;
use crate::help::Help;
use crate::instruction::Instruction;
use crate::output::Output;

verus! {

/// What the engine asks of every command besides running it: the name it is
/// called by, and its help.
pub trait CommandInfo {
    /// The name by which the command is called.
    fn caller(&self) -> &str;

    /// The help shown when the command is called with the help token as its
    /// first argument.
    fn on_help(&self, ins: &Instruction) -> String {
        Help::new(self.caller(), "help is not implemented for this command").format_compact()
    }
}

/// A command that runs to completion when called.
pub trait Command: CommandInfo {
    /// Runs the command on a parsed instruction.
    fn on_execute(&self, ins: &Instruction) -> Output;
}

} // verus!
