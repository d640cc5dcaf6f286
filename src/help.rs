use vstd::prelude::*;
use crate::instruction::{chars_of, index_from, name_index, strings_view};

verus! {

/// What one character of a description becomes: a tab is dropped, a line
/// break is followed by two tabs, anything else stays.
pub open spec fn desc_piece(c: char) -> Seq<char> {
    if c == '\t' {
        Seq::empty()
    } else if c == '\n' {
        seq!['\n', '\t', '\t']
    } else {
        seq![c]
    }
}

pub open spec fn expand_desc(s: Seq<char>) -> Seq<char>
    decreases s.len(),
{
    if s.len() == 0 {
        Seq::empty()
    } else {
        expand_desc(s.drop_last()) + desc_piece(s.last())
    }
}

/// A description laid out for the structured help: one trailing line break
/// dropped, tabs removed, and each line after the first indented by two tabs.
pub open spec fn desc_text(s: Seq<char>) -> Seq<char> {
    if s.len() > 0 && s.last() == '\n' {
        expand_desc(s.drop_last())
    } else {
        expand_desc(s)
    }
}

/// The parts joined by `sep`.
pub open spec fn join(parts: Seq<Seq<char>>, sep: Seq<char>) -> Seq<char>
    decreases parts.len(),
{
    if parts.len() == 0 {
        Seq::empty()
    } else if parts.len() == 1 {
        parts[0]
    } else {
        join(parts.drop_last(), sep) + sep + parts.last()
    }
}

/// The keys of a sequence of keyed entries.
pub open spec fn keys_of<V>(e: Seq<(String, V)>) -> Seq<Seq<char>> {
    e.map_values(|p: (String, V)| p.0@)
}

/// Sets the entry of key `k` to `v`, in place when the key is there, else at the end.
pub open spec fn put<V>(e: Seq<(Seq<char>, V)>, k: Seq<char>, v: V) -> Seq<(Seq<char>, V)> {
    let j = name_index(e.map_values(|p: (Seq<char>, V)| p.0), k);
    if j >= 0 {
        e.update(j, (k, v))
    } else {
        e.push((k, v))
    }
}

pub(crate) fn find_key<V>(v: &Vec<(String, V)>, k: &String) -> (r: Option<usize>)
    ensures
        match r {
            Some(j) => j as int == name_index(keys_of(v@), k@) && j < v@.len(),
            None => name_index(keys_of(v@), k@) == -1,
        },
{
    let ghost names = keys_of(v@);
    let mut i: usize = 0;
    while i < v.len()
        invariant
            i <= v@.len(),
            names == keys_of(v@),
            name_index(names, k@) == index_from(names, k@, i as int),
        decreases v.len() - i,
    {
        assert(names[i as int] == v@[i as int].0@);
        if v[i].0 == *k {
            return Some(i);
        }
        i = i + 1;
    }
    None
}

/// Lays out a description: see `desc_text`.
pub fn parse_desc(s: &str) -> (r: String)
    ensures
        r@ == desc_text(s@),
{
    let chars = chars_of(s);
    let n = chars.len();
    let end: usize = if n > 0 && chars[n - 1] == '\n' { n - 1 } else { n };
    let mut out = String::new();
    let mut run: usize = 0;
    let mut i: usize = 0;
    proof {
        reveal_strlit("\n\t\t");
        assert(s@.take(0) =~= Seq::<char>::empty());
        assert(s@.subrange(0, 0) =~= Seq::<char>::empty());
    }
    while i < end
        invariant
            chars@ == s@,
            end <= n == s@.len(),
            run <= i <= end,
            out@ + s@.subrange(run as int, i as int) == expand_desc(s@.take(i as int)),
        decreases end - i,
    {
        let c = chars[i];
        let ghost pre = s@.take(i as int);
        assert(s@.take(i + 1).drop_last() =~= pre);
        assert(s@.take(i + 1).last() == c);
        if c == '\t' || c == '\n' {
            let ghost before = out@;
            out.append(s.substring_char(run, i));
            if c == '\n' {
                proof {
                    reveal_strlit("\n\t\t");
                }
                assert("\n\t\t"@ =~= seq!['\n', '\t', '\t']);
                out.append("\n\t\t");
            }
            assert(s@.subrange((i + 1) as int, (i + 1) as int) =~= Seq::<char>::empty());
            assert(out@ + s@.subrange((i + 1) as int, (i + 1) as int) =~= before + s@.subrange(run as int, i as int) + desc_piece(c));
            run = i + 1;
        } else {
            assert(s@.subrange(run as int, (i + 1) as int) =~= s@.subrange(run as int, i as int) + seq![c]);
            assert(out@ + s@.subrange(run as int, (i + 1) as int) =~= (out@ + s@.subrange(run as int, i as int)) + seq![c]);
        }
        i = i + 1;
    }
    out.append(s.substring_char(run, end));
    assert(s@.take(end as int) =~= if n > 0 && s@.last() == '\n' { s@.drop_last() } else { s@ });
    out
}

/// The sub-argument that a flag takes: its name and whether it may be left out.
#[derive(Debug, Clone)]
pub struct SubArg {
    pub name: String,
    pub is_optional: bool,
}

impl SubArg {
    pub fn new(name: &str, is_optional: bool) -> (r: Self)
        ensures
            r.name@ == name@,
            r.is_optional == is_optional,
    {
        SubArg { name: String::from_str(name), is_optional }
    }
}

/// The abstract form of a flag's help entry: its description and its
/// sub-argument (name and optionality).
pub type OArgView = (Seq<char>, Option<(Seq<char>, bool)>);

pub open spec fn sub_arg_view(s: Option<SubArg>) -> Option<(Seq<char>, bool)> {
    match s {
        Some(a) => Some((a.name@, a.is_optional)),
        None => None,
    }
}

pub open spec fn args_view(v: Seq<(String, String)>) -> Seq<(Seq<char>, Seq<char>)> {
    v.map_values(|p: (String, String)| (p.0@, p.1@))
}

pub open spec fn oargs_view(v: Seq<(String, (String, Option<SubArg>))>) -> Seq<(Seq<char>, OArgView)> {
    v.map_values(|p: (String, (String, Option<SubArg>))| (p.0@, (p.1.0@, sub_arg_view(p.1.1))))
}

/// The abstract form of a help: the command's name and description, and the
/// positional arguments and flags with their descriptions, in the order first
/// declared (one entry per name).
pub struct HelpView {
    pub caller: Seq<char>,
    pub desc: Seq<char>,
    pub args: Seq<(Seq<char>, Seq<char>)>,
    pub oargs: Seq<(Seq<char>, OArgView)>,
}

/// The help of a command, built from its declared arguments and flags.
#[derive(Clone)]
pub struct Help {
    caller: String,
    desc: String,
    args: Vec<(String, String)>,
    oargs: Vec<(String, (String, Option<SubArg>))>,
}

impl View for Help {
    type V = HelpView;

    closed spec fn view(&self) -> HelpView {
        HelpView {
            caller: self.caller@,
            desc: self.desc@,
            args: args_view(self.args@),
            oargs: oargs_view(self.oargs@),
        }
    }
}

/// The line of a positional argument in the structured help.
pub open spec fn arg_line(a: (Seq<char>, Seq<char>)) -> Seq<char> {
    "\t["@ + a.0 + "] - "@ + desc_text(a.1)
}

/// How a flag is shown: its name, with its sub-argument in square brackets
/// when optional and in parentheses when required.
pub open spec fn oarg_key(o: (Seq<char>, OArgView)) -> Seq<char> {
    match o.1.1 {
        Some(s) => if s.1 {
            o.0 + " ["@ + s.0 + "]"@
        } else {
            o.0 + " ("@ + s.0 + ")"@
        },
        None => o.0,
    }
}

/// The line of a flag in the structured help.
pub open spec fn oarg_line(o: (Seq<char>, OArgView)) -> Seq<char> {
    "\t["@ + oarg_key(o) + "] - "@ + desc_text(o.1.0)
}

/// The block of positional arguments.
pub open spec fn args_block(a: Seq<(Seq<char>, Seq<char>)>) -> Seq<char> {
    "ARGS:\n"@ + join(a.map_values(|x: (Seq<char>, Seq<char>)| arg_line(x)), "\n"@)
}

/// The block of flags.
pub open spec fn oargs_block(o: Seq<(Seq<char>, OArgView)>) -> Seq<char> {
    "OARGS:\n"@ + join(o.map_values(|x: (Seq<char>, OArgView)| oarg_line(x)), "\n"@)
}

/// The structured help.
pub open spec fn structure_text(h: HelpView) -> Seq<char> {
    let head = "["@ + h.caller + "] - "@ + desc_text(h.desc);
    if h.args.len() == 0 && h.oargs.len() == 0 {
        head
    } else if h.oargs.len() == 0 {
        "NAME:\n\t"@ + head + "\n\n"@ + args_block(h.args) + "\n"@
    } else if h.args.len() == 0 {
        "NAME:\n\t"@ + head + "\n\n"@ + oargs_block(h.oargs) + "\n"@
    } else {
        "NAME:\n\t"@ + head + "\n\n"@ + args_block(h.args) + "\n\n"@ + oargs_block(h.oargs) + "\n"@
    }
}

/// How a positional argument is shown in the compact help.
pub open spec fn compact_arg(a: (Seq<char>, Seq<char>)) -> Seq<char> {
    "("@ + a.0 + ")"@
}

/// How a flag is shown in the compact help.
pub open spec fn compact_oarg(o: (Seq<char>, OArgView)) -> Seq<char> {
    "|"@ + oarg_key(o) + "|"@
}

/// The compact help: the name, the arguments, then the flags, each group
/// separated by a space.
pub open spec fn compact_text(h: HelpView) -> Seq<char> {
    h.caller + " "@ + join(h.args.map_values(|x: (Seq<char>, Seq<char>)| compact_arg(x)), " "@) + " "@
        + join(h.oargs.map_values(|x: (Seq<char>, OArgView)| compact_oarg(x)), " "@)
}


fn join_strings(parts: &Vec<String>, sep: &str) -> (r: String)
    ensures
        r@ == join(strings_view(parts@), sep@),
{
    let mut out = String::new();
    let mut i: usize = 0;
    assert(strings_view(parts@).take(0) =~= Seq::<Seq<char>>::empty());
    while i < parts.len()
        invariant
            i <= parts@.len(),
            out@ == join(strings_view(parts@).take(i as int), sep@),
        decreases parts.len() - i,
    {
        let ghost p = strings_view(parts@);
        assert(p.take(i + 1).drop_last() =~= p.take(i as int));
        assert(p.take(i + 1).last() == parts@[i as int]@);
        if i == 0 {
            out = parts[i].clone();
        } else {
            out.append(sep);
            out.append(parts[i].as_str());
        }
        i = i + 1;
    }
    assert(strings_view(parts@).take(i as int) =~= strings_view(parts@));
    out
}

fn oarg_key_string(name: &String, sub: &Option<SubArg>) -> (r: String)
    ensures
        r@ == oarg_key((name@, (Seq::<char>::empty(), sub_arg_view(*sub)))),
{
    match sub {
        Some(a) => {
            if a.is_optional {
                String::from_str(name.as_str()).concat(" [").concat(a.name.as_str()).concat("]")
            } else {
                String::from_str(name.as_str()).concat(" (").concat(a.name.as_str()).concat(")")
            }
        },
        None => name.clone(),
    }
}

impl Help {
    /// A help for the command `name` with description `desc`, with no
    /// argument or flag declared.
    pub fn new(name: &str, desc: &str) -> (r: Self)
        ensures
            r@ == (HelpView { caller: name@, desc: desc@, args: Seq::empty(), oargs: Seq::empty() }),
    {
        let r = Help {
            caller: String::from_str(name),
            desc: String::from_str(desc),
            args: Vec::new(),
            oargs: Vec::new(),
        };
        assert(r@.args =~= Seq::<(Seq<char>, Seq<char>)>::empty());
        assert(r@.oargs =~= Seq::<(Seq<char>, OArgView)>::empty());
        r
    }

    /// Declares a positional argument; one declared before under the same
    /// name gets the new description.
    pub fn add_arg(self, name: &str, desc: &str) -> (r: Self)
        ensures
            r@ == (HelpView { args: put(self@.args, name@, desc@), ..self@ }),
    {
        let mut h = self;
        let key = String::from_str(name);
        let ghost names = keys_of(h.args@);
        assert(names =~= args_view(h.args@).map_values(|p: (Seq<char>, Seq<char>)| p.0));
        match find_key(&h.args, &key) {
            Some(j) => {
                h.args.set(j, (key, String::from_str(desc)));
            },
            None => {
                h.args.push((key, String::from_str(desc)));
            },
        }
        assert(h@.args =~= put(self@.args, name@, desc@));
        h
    }

    /// Declares a flag with its description and sub-argument; one declared
    /// before under the same name is replaced.
    pub fn add_oarg(self, name: &str, desc: &str, sub_arg: Option<SubArg>) -> (r: Self)
        ensures
            r@ == (HelpView {
                oargs: put(self@.oargs, name@, (desc@, sub_arg_view(sub_arg))),
                ..self@
            }),
    {
        let mut h = self;
        let key = String::from_str(name);
        let ghost names = keys_of(h.oargs@);
        assert(names =~= oargs_view(h.oargs@).map_values(|p: (Seq<char>, OArgView)| p.0));
        let ghost sv = sub_arg_view(sub_arg);
        match find_key(&h.oargs, &key) {
            Some(j) => {
                h.oargs.set(j, (key, (String::from_str(desc), sub_arg)));
            },
            None => {
                h.oargs.push((key, (String::from_str(desc), sub_arg)));
            },
        }
        assert(h@.oargs =~= put(self@.oargs, name@, (desc@, sv)));
        h
    }

    /// The name of the command that the help is for.
    pub fn get_command_name(&self) -> (r: &str)
        ensures
            r@ == self@.caller,
    {
        self.caller.as_str()
    }

    /// The description of the command that the help is for.
    pub fn get_command_description(&self) -> (r: &str)
        ensures
            r@ == self@.desc,
    {
        self.desc.as_str()
    }

    fn args_block(&self) -> (r: String)
        ensures
            r@ == args_block(self@.args),
    {
        let mut lines: Vec<String> = Vec::new();
        let mut i: usize = 0;
        while i < self.args.len()
            invariant
                i <= self.args@.len(),
                lines@.len() == i,
                forall|j: int| 0 <= j < i ==> (#[trigger] lines@[j])@ == arg_line(args_view(self.args@)[j]),
            decreases self.args.len() - i,
        {
            let line = String::from_str("\t[").concat(self.args[i].0.as_str()).concat("] - ").concat(
                parse_desc(self.args[i].1.as_str()).as_str(),
            );
            lines.push(line);
            i = i + 1;
        }
        assert(strings_view(lines@) =~= self@.args.map_values(|x: (Seq<char>, Seq<char>)| arg_line(x)));
        String::from_str("ARGS:\n").concat(join_strings(&lines, "\n").as_str())
    }

    fn oargs_block(&self) -> (r: String)
        ensures
            r@ == oargs_block(self@.oargs),
    {
        let mut lines: Vec<String> = Vec::new();
        let mut i: usize = 0;
        while i < self.oargs.len()
            invariant
                i <= self.oargs@.len(),
                lines@.len() == i,
                forall|j: int| 0 <= j < i ==> (#[trigger] lines@[j])@ == oarg_line(oargs_view(self.oargs@)[j]),
            decreases self.oargs.len() - i,
        {
            let key = oarg_key_string(&self.oargs[i].0, &self.oargs[i].1.1);
            let line = String::from_str("\t[").concat(key.as_str()).concat("] - ").concat(
                parse_desc(self.oargs[i].1.0.as_str()).as_str(),
            );
            lines.push(line);
            i = i + 1;
        }
        assert(strings_view(lines@) =~= self@.oargs.map_values(|x: (Seq<char>, OArgView)| oarg_line(x)));
        String::from_str("OARGS:\n").concat(join_strings(&lines, "\n").as_str())
    }

    /// The help laid out in blocks: the name and description, then the
    /// positional arguments and the flags that were declared, one per line.
    pub fn format_structure(&self) -> (r: String)
        ensures
            r@ == structure_text(self@),
    {
        let head = String::from_str("[").concat(self.caller.as_str()).concat("] - ").concat(
            parse_desc(self.desc.as_str()).as_str(),
        );
        let no_args = self.args.len() == 0;
        let no_oargs = self.oargs.len() == 0;
        if no_args && no_oargs {
            head
        } else if no_oargs {
            String::from_str("NAME:\n\t").concat(head.as_str()).concat("\n\n").concat(
                self.args_block().as_str(),
            ).concat("\n")
        } else if no_args {
            String::from_str("NAME:\n\t").concat(head.as_str()).concat("\n\n").concat(
                self.oargs_block().as_str(),
            ).concat("\n")
        } else {
            String::from_str("NAME:\n\t").concat(head.as_str()).concat("\n\n").concat(
                self.args_block().as_str(),
            ).concat("\n\n").concat(self.oargs_block().as_str()).concat("\n")
        }
    }

    /// The help on one line: the name, the arguments in parentheses, and the
    /// flags between bars.
    pub fn format_compact(&self) -> (r: String)
        ensures
            r@ == compact_text(self@),
    {
        let mut args: Vec<String> = Vec::new();
        let mut i: usize = 0;
        while i < self.args.len()
            invariant
                i <= self.args@.len(),
                args@.len() == i,
                forall|j: int| 0 <= j < i ==> (#[trigger] args@[j])@ == compact_arg(args_view(self.args@)[j]),
            decreases self.args.len() - i,
        {
            args.push(String::from_str("(").concat(self.args[i].0.as_str()).concat(")"));
            i = i + 1;
        }
        assert(strings_view(args@) =~= self@.args.map_values(|x: (Seq<char>, Seq<char>)| compact_arg(x)));
        let mut oargs: Vec<String> = Vec::new();
        let mut i: usize = 0;
        while i < self.oargs.len()
            invariant
                i <= self.oargs@.len(),
                oargs@.len() == i,
                forall|j: int| 0 <= j < i ==> (#[trigger] oargs@[j])@ == compact_oarg(oargs_view(self.oargs@)[j]),
            decreases self.oargs.len() - i,
        {
            let key = oarg_key_string(&self.oargs[i].0, &self.oargs[i].1.1);
            oargs.push(String::from_str("|").concat(key.as_str()).concat("|"));
            i = i + 1;
        }
        assert(strings_view(oargs@) =~= self@.oargs.map_values(|x: (Seq<char>, OArgView)| compact_oarg(x)));
        String::from_str(self.caller.as_str()).concat(" ").concat(join_strings(&args, " ").as_str()).concat(
            " ",
        ).concat(join_strings(&oargs, " ").as_str())
    }
}

} // verus!
