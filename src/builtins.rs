use vstd::prelude::*;
use crate::command::CommandInfo;
use crate::instruction::{Instruction, name_index, names_of};
use crate::output::{Output, Result};

verus! {

/// The message of a built-in command called with too few arguments.
pub const ERR_ARGUMENTS_NUM: &'static str = "invalid number of arguments";

/// The message of a built-in command given a path that is not a directory.
pub const ERR_NOT_A_DIR_PATH: &'static str = "path is not a directory";

/// The message of a copy whose paths are not files.
pub const ERR_NOT_FILES: &'static str = "both args have to be valid file paths";

/// The message of a copy onto an existing file without `--o`.
pub const ERR_NO_OVERRIDE: &'static str = "can't copy override without oarg --o";

/// Whether the instruction opened flag `f`.
pub open spec fn has_flag(ins: Instruction, f: Seq<char>) -> bool {
    name_index(names_of(ins@.o_args), f) >= 0
}

fn flag_given(ins: &Instruction, f: &str) -> (r: bool)
    ensures
        r == has_flag(*ins, f@),
{
    ins.find_flag(&String::from_str(f)).is_some()
}

/// What a copy does: make a new file, or write over an existing one.
#[derive(PartialEq, Eq, Structural, Debug, Clone, Copy)]
pub enum CpAction {
    FileNew,
    FileOver,
}

/// Copies the file named by the first positional argument to the path named
/// by the second; `--o` allows writing over an existing file.
pub struct Cp;

impl Cp {
    pub fn name() -> (r: &'static str)
        ensures
            r@ == "cp"@,
    {
        "cp"
    }

    pub fn new() -> Cp {
        Cp
    }

    /// Decides a copy, given what the file system says of the two paths:
    /// whether the source is a file and whether the target exists.
    pub fn parse_instruction(ins: &Instruction, source_is_file: bool, target_exists: bool) -> (r:
        core::result::Result<CpAction, Output>)
        ensures
            ins.args@.len() < 2 ==> (r matches Err(o) && o.result == Result::Error(1) && o.message@
                == ERR_ARGUMENTS_NUM@),
            ins.args@.len() >= 2 && !source_is_file ==> (r matches Err(o) && o.result == Result::Error(2)
                && o.message@ == ERR_NOT_FILES@),
            ins.args@.len() >= 2 && source_is_file && !target_exists ==> r == Ok::<CpAction, Output>(
                CpAction::FileNew,
            ),
            ins.args@.len() >= 2 && source_is_file && target_exists && has_flag(*ins, "--o"@) ==> r
                == Ok::<CpAction, Output>(CpAction::FileOver),
            ins.args@.len() >= 2 && source_is_file && target_exists && !has_flag(*ins, "--o"@) ==> (r matches Err(
                o,
            ) && o.result == Result::Error(3) && o.message@ == ERR_NO_OVERRIDE@),
    {
        if ins.args.len() < 2 {
            return Err(Output::new_error(1, Some(ERR_ARGUMENTS_NUM)));
        }
        if !source_is_file {
            return Err(Output::new_error(2, Some(ERR_NOT_FILES)));
        }
        if !target_exists {
            return Ok(CpAction::FileNew);
        }
        if flag_given(ins, "--o") {
            Ok(CpAction::FileOver)
        } else {
            Err(Output::new_error(3, Some(ERR_NO_OVERRIDE)))
        }
    }

    /// The output of a copy: `Ok(1)`, or `Error(4)` with the failure.
    pub fn copy_outcome(failure: Option<&str>) -> (r: Output)
        ensures
            match failure {
                Some(m) => r.result == Result::Error(4) && r.message@ == m@,
                None => r.result == Result::Success(1) && r.message@.len() == 0,
            },
    {
        match failure {
            Some(m) => Output::new_error(4, Some(m)),
            None => Output::new_ok(1, None),
        }
    }
}

impl CommandInfo for Cp {
    fn caller(&self) -> &str {
        "cp"
    }
}

/// What the working-directory command is asked to do.
pub enum CwdPlan {
    /// Show the working directory.
    Show,
    /// Change to the directory named.
    Change(String),
}

/// Shows the working directory, or changes it to the first positional argument.
pub struct Cwd;

impl Cwd {
    pub fn new() -> Cwd {
        Cwd
    }

    /// Show when there is no positional argument, else change to the first.
    pub fn plan(ins: &Instruction) -> (r: CwdPlan)
        ensures
            ins.args@.len() == 0 ==> r is Show,
            ins.args@.len() > 0 ==> (r matches CwdPlan::Change(p) && p@ == ins.args@[0]@),
    {
        if ins.args.len() == 0 {
            CwdPlan::Show
        } else {
            CwdPlan::Change(ins.args[0].clone())
        }
    }

    /// The output of showing the directory: `Ok(1)` with it, or `Error(1)`
    /// with the failure.
    pub fn shown(dir: core::result::Result<&str, &str>) -> (r: Output)
        ensures
            match dir {
                Ok(d) => r.result == Result::Success(1) && r.message@ == d@,
                Err(m) => r.result == Result::Error(1) && r.message@ == m@,
            },
    {
        match dir {
            Ok(d) => Output::new_ok(1, Some(d)),
            Err(m) => Output::new_error(1, Some(m)),
        }
    }

    /// The output of changing to `path`: `Error(2)` when it is not a
    /// directory, else `Ok(2)` with the path, or `Error(3)` with the failure.
    pub fn changed(path: &str, is_dir: bool, failure: Option<&str>) -> (r: Output)
        ensures
            !is_dir ==> r.result == Result::Error(2) && r.message@ == ERR_NOT_A_DIR_PATH@,
            is_dir ==> match failure {
                Some(m) => r.result == Result::Error(3) && r.message@ == m@,
                None => r.result == Result::Success(2) && r.message@ == path@,
            },
    {
        if !is_dir {
            return Output::new_error(2, Some(ERR_NOT_A_DIR_PATH));
        }
        match failure {
            Some(m) => Output::new_error(3, Some(m)),
            None => Output::new_ok(2, Some(path)),
        }
    }
}

impl CommandInfo for Cwd {
    fn caller(&self) -> &str {
        "cwd"
    }
}

/// Which entries a listing shows.
#[derive(PartialEq, Eq, Structural, Debug, Clone, Copy)]
pub enum LdAction {
    All,
    Files,
    Dirs,
}

/// Lists the entries of a directory (the working one when no positional
/// argument is given): `--f` for files only, `--d` for directories only.
pub struct Ld;

/// Each name followed by a line break.
pub open spec fn lines_of(names: Seq<String>) -> Seq<char>
    decreases names.len(),
{
    if names.len() == 0 {
        Seq::empty()
    } else {
        lines_of(names.drop_last()) + names.last()@ + "\n"@
    }
}

/// The listing: the directories under a heading, then the files under one,
/// each group only when the action shows it.
pub open spec fn listing(action: LdAction, dirs: Seq<String>, files: Seq<String>) -> Seq<char> {
    let d = if action != LdAction::Files { "--- Dirs ---\n"@ + lines_of(dirs) } else { Seq::empty() };
    let f = if action != LdAction::Dirs { "--- Files ---\n"@ + lines_of(files) } else { Seq::empty() };
    d + f
}

fn append_lines(out: &mut String, names: &Vec<String>)
    ensures
        final(out)@ == old(out)@ + lines_of(names@),
{
    let mut i: usize = 0;
    assert(names@.take(0) =~= Seq::<String>::empty());
    assert(old(out)@ + Seq::<char>::empty() =~= old(out)@);
    while i < names.len()
        invariant
            i <= names@.len(),
            out@ == old(out)@ + lines_of(names@.take(i as int)),
        decreases names.len() - i,
    {
        let ghost pre = out@;
        assert(names@.take(i + 1).drop_last() =~= names@.take(i as int));
        out.append(names[i].as_str());
        out.append("\n");
        assert(out@ =~= old(out)@ + lines_of(names@.take(i + 1)));
        i = i + 1;
    }
    assert(names@.take(i as int) =~= names@);
}

impl Ld {
    pub fn name() -> (r: &'static str)
        ensures
            r@ == "ld"@,
    {
        "ld"
    }

    pub fn new() -> Ld {
        Ld
    }

    /// `--f` alone lists files, `--d` alone directories, both or neither everything.
    pub fn action(ins: &Instruction) -> (r: LdAction)
        ensures
            r == (if has_flag(*ins, "--f"@) == has_flag(*ins, "--d"@) {
                LdAction::All
            } else if has_flag(*ins, "--f"@) {
                LdAction::Files
            } else {
                LdAction::Dirs
            }),
    {
        let f = flag_given(ins, "--f");
        let d = flag_given(ins, "--d");
        if f == d {
            LdAction::All
        } else if f {
            LdAction::Files
        } else {
            LdAction::Dirs
        }
    }

    /// Lays out the names of a directory's entries: see `listing`.
    pub fn format_path_content(action: LdAction, dirs: &Vec<String>, files: &Vec<String>) -> (r: String)
        ensures
            r@ == listing(action, dirs@, files@),
    {
        let mut out = String::new();
        if action != LdAction::Files {
            out.append("--- Dirs ---\n");
            append_lines(&mut out, dirs);
        }
        let ghost d = out@;
        if action != LdAction::Dirs {
            out.append("--- Files ---\n");
            append_lines(&mut out, files);
        }
        assert(out@ =~= listing(action, dirs@, files@));
        out
    }

    /// The output of a listing: `Ok(1)` with it; `Error(2)` when the path
    /// named is not a directory.
    pub fn listed(is_dir: bool, content: &str) -> (r: Output)
        ensures
            is_dir ==> r.result == Result::Success(1) && r.message@ == content@,
            !is_dir ==> r.result == Result::Error(2) && r.message@ == ERR_NOT_A_DIR_PATH@,
    {
        if is_dir {
            Output::new_ok(1, Some(content))
        } else {
            Output::new_error(2, Some(ERR_NOT_A_DIR_PATH))
        }
    }
}

impl CommandInfo for Ld {
    fn caller(&self) -> &str {
        "ld"
    }
}


/// What `str::to_lowercase` gives for the characters `s`.
pub uninterp spec fn lower_of(s: Seq<char>) -> Seq<char>;

/// Relies on `str::to_lowercase`: the lower-case form of the characters,
/// which depends on them alone.
#[verifier::external_body]
fn lowercase(s: &str) -> (r: String)
    ensures
        r@ == lower_of(s@),
{
    s.to_lowercase()
}

/// What the environment command is asked to do.
pub enum EnvPlan {
    /// Read the variable named.
    Get(String),
    /// Set the variable named to the value.
    Assign(String, String),
    /// Nothing to do: answer with this output.
    Done(Output),
}

/// Reads (`env get KEY`) or sets (`env set KEY VALUE`) an environment variable;
/// the operation is read without regard to case.
pub struct Env;

impl Env {
    pub fn new() -> Env {
        Env
    }

    /// Decides, given the operation already in lower case: `get` reads the
    /// variable named by the second positional argument, `set` sets it to the
    /// third; too few arguments give `Error(1)`, another operation `Error(2)`.
    pub fn plan_with_op(op: &str, ins: &Instruction) -> (r: EnvPlan)
        ensures
            ins.args@.len() < 2 ==> (r matches EnvPlan::Done(o) && o.result == Result::Error(1)
                && o.message@ == ERR_ARGUMENTS_NUM@),
            ins.args@.len() >= 2 && op@ == "get"@ ==> (r matches EnvPlan::Get(k) && k@ == ins.args@[1]@),
            ins.args@.len() == 2 && op@ == "set"@ ==> (r matches EnvPlan::Done(o) && o.result
                == Result::Error(1) && o.message@ == ERR_ARGUMENTS_NUM@),
            ins.args@.len() >= 3 && op@ == "set"@ ==> (r matches EnvPlan::Assign(k, v) && k@ == ins.args@[1]@
                && v@ == ins.args@[2]@),
            ins.args@.len() >= 2 && op@ != "get"@ && op@ != "set"@ ==> (r matches EnvPlan::Done(o)
                && o.result == Result::Error(2) && o.message@ == "invalid operation ["@ + op@ + "]"@),
    {
        if ins.args.len() < 2 {
            return EnvPlan::Done(Output::new_error(1, Some(ERR_ARGUMENTS_NUM)));
        }
        proof {
            reveal_strlit("get");
            reveal_strlit("set");
        }
        assert("get"@ != "set"@) by {
            assert("get"@[0] != "set"@[0]);
        }
        let op_s = String::from_str(op);
        let key = ins.args[1].clone();
        if op_s == String::from_str("get") {
            EnvPlan::Get(key)
        } else if op_s == String::from_str("set") {
            if ins.args.len() < 3 {
                EnvPlan::Done(Output::new_error(1, Some(ERR_ARGUMENTS_NUM)))
            } else {
                EnvPlan::Assign(key, ins.args[2].clone())
            }
        } else {
            let msg = String::from_str("invalid operation [").concat(op).concat("]");
            EnvPlan::Done(Output::new_error(2, Some(msg.as_str())))
        }
    }

    /// Decides from the instruction alone: the operation is the first
    /// positional argument in lower case, see `plan_with_op`.
    pub fn plan(ins: &Instruction) -> (r: EnvPlan)
        ensures
            ins.args@.len() < 2 ==> (r matches EnvPlan::Done(o) && o.result == Result::Error(1)
                && o.message@ == ERR_ARGUMENTS_NUM@),
            ins.args@.len() >= 2 && lower_of(ins.args@[0]@) == "get"@ ==> (r matches EnvPlan::Get(k)
                && k@ == ins.args@[1]@),
            ins.args@.len() == 2 && lower_of(ins.args@[0]@) == "set"@ ==> (r matches EnvPlan::Done(o)
                && o.result == Result::Error(1) && o.message@ == ERR_ARGUMENTS_NUM@),
            ins.args@.len() >= 3 && lower_of(ins.args@[0]@) == "set"@ ==> (r matches EnvPlan::Assign(k, v)
                && k@ == ins.args@[1]@ && v@ == ins.args@[2]@),
            ins.args@.len() >= 2 && lower_of(ins.args@[0]@) != "get"@ && lower_of(ins.args@[0]@) != "set"@
                ==> (r matches EnvPlan::Done(o) && o.result == Result::Error(2) && o.message@
                == "invalid operation ["@ + lower_of(ins.args@[0]@) + "]"@),
    {
        if ins.args.len() < 2 {
            return EnvPlan::Done(Output::new_error(1, Some(ERR_ARGUMENTS_NUM)));
        }
        let op = lowercase(ins.args[0].as_str());
        Env::plan_with_op(op.as_str(), ins)
    }

    /// The output of reading a variable: `Ok(1)` with its value, or
    /// `Error(3)` with the failure.
    pub fn got(value: core::result::Result<&str, &str>) -> (r: Output)
        ensures
            match value {
                Ok(v) => r.result == Result::Success(1) && r.message@ == v@,
                Err(m) => r.result == Result::Error(3) && r.message@ == m@,
            },
    {
        match value {
            Ok(v) => Output::new_ok(1, Some(v)),
            Err(m) => Output::new_error(3, Some(m)),
        }
    }

    /// The output of setting a variable: `Ok(1)` with `KEY: VALUE`.
    pub fn set_done(key: &str, value: &str) -> (r: Output)
        ensures
            r.result == Result::Success(1),
            r.message@ == key@ + ": "@ + value@,
    {
        let msg = String::from_str(key).concat(": ").concat(value);
        Output::new_ok(1, Some(msg.as_str()))
    }
}

impl CommandInfo for Env {
    fn caller(&self) -> &str {
        "env"
    }
}

} // verus!
