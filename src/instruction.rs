use vstd::prelude::*;
use crate::error::Error;

verus! {

/// The character that separates tokens outside a literal.
pub const SPACE: char = ' ';

/// The character that opens and closes a quoted literal.
pub const QUOTE: char = '"';

/// The character that, next to a quote, opens (`#"`) or closes (`"#`) a fenced literal.
pub const HASH: char = '#';

/// What the scanner is inside of.
#[derive(PartialEq, Eq, Structural, Clone, Copy, Debug)]
pub enum Mode {
    /// Plain text: a space ends a token.
    Plain,
    /// A quoted literal `"..."`: spaces are kept, the next quote closes it.
    Quoted,
    /// A fenced literal `#"..."#`: spaces and lone quotes are kept, `"#` closes it.
    Fenced,
}

/// The scanner's state after a prefix of the input: the mode, where the
/// pending token starts, and the spans `[start, end)` of the tokens found.
pub struct ScanState {
    pub mode: Mode,
    pub start: int,
    pub spans: Seq<(int, int)>,
}

/// Adds the span `[a, b)` as a token unless it is empty.
pub open spec fn emit(spans: Seq<(int, int)>, a: int, b: int) -> Seq<(int, int)> {
    if a < b {
        spans.push((a, b))
    } else {
        spans
    }
}

/// One step of the scanner, on the character at `i`.
pub open spec fn scan_step(s: Seq<char>, st: ScanState, i: int) -> ScanState {
    let c = s[i];
    match st.mode {
        Mode::Plain => if c == SPACE {
            ScanState { mode: Mode::Plain, start: i + 1, spans: emit(st.spans, st.start, i) }
        } else if c == QUOTE {
            if i > st.start && s[i - 1] == HASH {
                ScanState { mode: Mode::Fenced, start: i + 1, spans: emit(st.spans, st.start, i - 1) }
            } else {
                ScanState { mode: Mode::Quoted, start: i + 1, spans: emit(st.spans, st.start, i) }
            }
        } else {
            st
        },
        Mode::Quoted => if c == QUOTE {
            ScanState { mode: Mode::Plain, start: i + 1, spans: emit(st.spans, st.start, i) }
        } else {
            st
        },
        Mode::Fenced => if c == HASH && i > st.start && s[i - 1] == QUOTE {
            ScanState { mode: Mode::Plain, start: i + 1, spans: emit(st.spans, st.start, i - 1) }
        } else {
            st
        },
    }
}

/// The scanner's state after the first `n` characters of `s`.
pub open spec fn scan(s: Seq<char>, n: nat) -> ScanState
    decreases n,
{
    if n == 0 {
        ScanState { mode: Mode::Plain, start: 0, spans: Seq::empty() }
    } else {
        scan_step(s, scan(s, (n - 1) as nat), n - 1)
    }
}

/// The spans of all tokens of `s`: what is pending at the end (also an
/// unterminated literal) is a token too. Empty tokens are dropped.
pub open spec fn token_spans(s: Seq<char>) -> Seq<(int, int)> {
    let st = scan(s, s.len());
    emit(st.spans, st.start, s.len() as int)
}

/// The tokens of `s`, left to right.
pub open spec fn tokens(s: Seq<char>) -> Seq<Seq<char>> {
    token_spans(s).map_values(|p: (int, int)| s.subrange(p.0, p.1))
}

pub open spec fn spans_view(v: Seq<(usize, usize)>) -> Seq<(int, int)> {
    v.map_values(|p: (usize, usize)| (p.0 as int, p.1 as int))
}

pub open spec fn spans_within(v: Seq<(usize, usize)>, n: int) -> bool {
    forall|k: int| 0 <= k < v.len() ==> (#[trigger] v[k]).0 < v[k].1 <= n
}

pub(crate) fn chars_of(s: &str) -> (r: Vec<char>)
    ensures
        r@ == s@,
{
    let mut r: Vec<char> = Vec::new();
    for c in it: s.chars()
        invariant
            r@ == it.seq().take(it.index() as int),
            it.seq() == s@,
    {
        r.push(c);
    }
    r
}

fn push_span(spans: &mut Vec<(usize, usize)>, a: usize, b: usize)
    ensures
        spans_view(final(spans)@) == emit(spans_view(old(spans)@), a as int, b as int),
        final(spans)@ == (if a < b { old(spans)@.push((a, b)) } else { old(spans)@ }),
{
    if a < b {
        spans.push((a, b));
    }
    proof {
        assert(spans_view(final(spans)@) =~= emit(spans_view(old(spans)@), a as int, b as int));
    }
}

/// Splits the characters of an instruction into token spans.
fn scan_tokens(s: &Vec<char>) -> (r: Vec<(usize, usize)>)
    ensures
        spans_view(r@) == token_spans(s@),
        spans_within(r@, s@.len() as int),
{
    let mut spans: Vec<(usize, usize)> = Vec::new();
    let mut mode = Mode::Plain;
    let mut start: usize = 0;
    let n = s.len();
    let mut i: usize = 0;
    assert(spans_view(spans@) =~= Seq::<(int, int)>::empty());
    while i < n
        invariant
            n == s@.len(),
            i <= n,
            start <= i,
            scan(s@, i as nat) == (ScanState { mode, start: start as int, spans: spans_view(spans@) }),
            spans_within(spans@, i as int),
        decreases n - i,
    {
        let c = s[i];
        proof {
            assert(scan(s@, (i + 1) as nat) == scan_step(s@, scan(s@, i as nat), i as int));
        }
        match mode {
            Mode::Plain => {
                if c == SPACE {
                    push_span(&mut spans, start, i);
                    start = i + 1;
                } else if c == QUOTE {
                    if i > start && s[i - 1] == HASH {
                        push_span(&mut spans, start, i - 1);
                        mode = Mode::Fenced;
                    } else {
                        push_span(&mut spans, start, i);
                        mode = Mode::Quoted;
                    }
                    start = i + 1;
                }
            },
            Mode::Quoted => {
                if c == QUOTE {
                    push_span(&mut spans, start, i);
                    mode = Mode::Plain;
                    start = i + 1;
                }
            },
            Mode::Fenced => {
                if c == HASH && i > start && s[i - 1] == QUOTE {
                    push_span(&mut spans, start, i - 1);
                    mode = Mode::Plain;
                    start = i + 1;
                }
            },
        }
        i = i + 1;
    }
    push_span(&mut spans, start, n);
    spans
}


/// The prefix that marks a token as a flag.
pub open spec fn is_flag(t: Seq<char>) -> bool {
    t.len() >= 2 && t[0] == '-' && t[1] == '-'
}

/// The keys of a sequence of entries, in order.
pub open spec fn names_of<V>(e: Seq<(Seq<char>, V)>) -> Seq<Seq<char>> {
    e.map_values(|p: (Seq<char>, V)| p.0)
}

/// No two entries share a key.
pub open spec fn unique_keys(names: Seq<Seq<char>>) -> bool {
    forall|i: int, j: int| 0 <= i < names.len() && 0 <= j < names.len() && i != j ==> names[i] != names[j]
}

/// The first index at or after `from` where `names` holds `k`, or -1.
pub open spec fn index_from(names: Seq<Seq<char>>, k: Seq<char>, from: int) -> int
    decreases names.len() - from,
{
    if from < 0 || from >= names.len() {
        -1
    } else if names[from] == k {
        from
    } else {
        index_from(names, k, from + 1)
    }
}

/// The first index where `names` holds `k`, or -1.
pub open spec fn name_index(names: Seq<Seq<char>>, k: Seq<char>) -> int {
    index_from(names, k, 0)
}

/// Opening flag `f`: a new entry with no sub-arguments, or the existing entry
/// of that name reset to none.
pub open spec fn open_flag_spec(
    e: Seq<(Seq<char>, Option<Seq<Seq<char>>>)>,
    f: Seq<char>,
) -> Seq<(Seq<char>, Option<Seq<Seq<char>>>)> {
    let j = name_index(names_of(e), f);
    if j >= 0 {
        e.update(j, (f, None))
    } else {
        e.push((f, None))
    }
}

/// A sub-argument appended to what a flag holds.
pub open spec fn append_sub(v: Option<Seq<Seq<char>>>, tok: Seq<char>) -> Option<Seq<Seq<char>>> {
    match v {
        Some(xs) => Some(xs.push(tok)),
        None => Some(seq![tok]),
    }
}

/// Attaching sub-argument `tok` to flag `f`: `None` when no flag of that name
/// is open.
pub open spec fn add_sub_arg_spec(
    e: Seq<(Seq<char>, Option<Seq<Seq<char>>>)>,
    f: Seq<char>,
    tok: Seq<char>,
) -> Option<Seq<(Seq<char>, Option<Seq<Seq<char>>>)>> {
    let j = name_index(names_of(e), f);
    if j >= 0 {
        Some(e.update(j, (e[j].0, append_sub(e[j].1, tok))))
    } else {
        None
    }
}

/// The flag entries built from the tokens that follow the positional
/// arguments, with the flag most recently opened; `None` when a sub-argument
/// comes before any flag.
pub open spec fn fold_flags(t: Seq<Seq<char>>) -> Option<
    (Seq<(Seq<char>, Option<Seq<Seq<char>>>)>, Seq<char>),
>
    decreases t.len(),
{
    if t.len() == 0 {
        Some((Seq::empty(), Seq::empty()))
    } else {
        match fold_flags(t.drop_last()) {
            None => None,
            Some(st) => {
                let tok = t.last();
                if is_flag(tok) {
                    Some((open_flag_spec(st.0, tok), tok))
                } else {
                    match add_sub_arg_spec(st.0, st.1, tok) {
                        Some(e) => Some((e, st.1)),
                        None => None,
                    }
                }
            },
        }
    }
}

/// The index of the first flag at or after `from`, or the length.
pub open spec fn first_flag(t: Seq<Seq<char>>, from: int) -> int
    decreases t.len() - from,
{
    if from >= t.len() {
        t.len() as int
    } else if from >= 0 && is_flag(t[from]) {
        from
    } else {
        first_flag(t, from + 1)
    }
}

/// The abstract form of an instruction.
pub struct InstructionView {
    pub caller: Seq<char>,
    pub args: Seq<Seq<char>>,
    pub o_args: Seq<(Seq<char>, Option<Seq<Seq<char>>>)>,
    pub input: Seq<char>,
}

/// What parsing `s` gives: the first token is the caller; the tokens up to
/// the first flag are the positional arguments; from there on a flag opens an
/// entry and any other token is a sub-argument of the flag opened last.
pub open spec fn parse_spec(s: Seq<char>) -> core::result::Result<InstructionView, Error> {
    let t = tokens(s);
    if t.len() == 0 || is_flag(t[0]) {
        Err(Error::MissingCaller)
    } else {
        let k = first_flag(t, 1);
        match fold_flags(t.subrange(k, t.len() as int)) {
            None => Err(Error::SubArgWithoutFlag),
            Some(st) => Ok(
                InstructionView { caller: t[0], args: t.subrange(1, k), o_args: st.0, input: s },
            ),
        }
    }
}

pub open spec fn strings_view(v: Seq<String>) -> Seq<Seq<char>> {
    v.map_values(|x: String| x@)
}

pub open spec fn opt_strings_view(o: Option<Vec<String>>) -> Option<Seq<Seq<char>>> {
    match o {
        Some(v) => Some(strings_view(v@)),
        None => None,
    }
}

pub open spec fn entries_view(v: Seq<(String, Option<Vec<String>>)>) -> Seq<
    (Seq<char>, Option<Seq<Seq<char>>>),
> {
    v.map_values(|p: (String, Option<Vec<String>>)| (p.0@, opt_strings_view(p.1)))
}

/// A parsed instruction: the caller, the positional arguments, the flags with
/// their sub-arguments (one entry per flag name), and the raw input.
#[derive(PartialEq, Eq, Debug, Clone)]
pub struct Instruction {
    pub caller: String,
    pub args: Vec<String>,
    pub o_args: Vec<(String, Option<Vec<String>>)>,
    pub input: String,
}

impl View for Instruction {
    type V = InstructionView;

    open spec fn view(&self) -> InstructionView {
        InstructionView {
            caller: self.caller@,
            args: strings_view(self.args@),
            o_args: entries_view(self.o_args@),
            input: self.input@,
        }
    }
}

/// Whether the token is a flag, that is, starts with `--`.
pub fn is_flag_token(t: &str) -> (r: bool)
    ensures
        r == is_flag(t@),
{
    let n = t.unicode_len();
    if n < 2 {
        false
    } else {
        t.get_char(0) == '-' && t.get_char(1) == '-'
    }
}

fn token_strings(input: &str, spans: &Vec<(usize, usize)>) -> (r: Vec<String>)
    requires
        spans_view(spans@) == token_spans(input@),
        spans_within(spans@, input@.len() as int),
    ensures
        strings_view(r@) == tokens(input@),
{
    let mut r: Vec<String> = Vec::new();
    let mut i: usize = 0;
    while i < spans.len()
        invariant
            i <= spans.len(),
            spans_view(spans@) == token_spans(input@),
            spans_within(spans@, input@.len() as int),
            strings_view(r@) == tokens(input@).take(i as int),
        decreases spans.len() - i,
    {
        let (a, b) = spans[i];
        assert(spans@[i as int].0 < spans@[i as int].1 <= input@.len());
        assert(token_spans(input@)[i as int] == (a as int, b as int));
        assert(tokens(input@)[i as int] == input@.subrange(a as int, b as int));
        let t = String::from_str(input.substring_char(a, b));
        let ghost before = r@;
        r.push(t);
        assert(r@ == before.push(t));
        proof {
            assert(strings_view(r@) =~= strings_view(before).push(t@));
            assert(tokens(input@).take(i + 1) =~= tokens(input@).take(i as int).push(tokens(input@)[i as int]));
        }
        i = i + 1;
    }
    assert(tokens(input@).take(i as int) =~= tokens(input@));
    r
}

proof fn lemma_fold_none(t: Seq<Seq<char>>, k: int, i: int, n: int)
    requires
        0 <= k <= i <= n <= t.len(),
        fold_flags(t.subrange(k, i)) is None,
    ensures
        fold_flags(t.subrange(k, n)) is None,
    decreases n - i,
{
    if n > i {
        lemma_fold_none(t, k, i, n - 1);
        assert(t.subrange(k, n).drop_last() =~= t.subrange(k, n - 1));
    }
}

impl Instruction {
    /// An instruction with no caller, arguments, flags or input.
    pub fn empty() -> (r: Instruction)
        ensures
            r@.caller.len() == 0,
            r@.args.len() == 0,
            r@.o_args.len() == 0,
            r@.input.len() == 0,
    {
        let r = Instruction { caller: String::new(), args: Vec::new(), o_args: Vec::new(), input: String::new() };
        assert(r@.args =~= Seq::<Seq<char>>::empty());
        assert(r@.o_args =~= Seq::<(Seq<char>, Option<Seq<Seq<char>>>)>::empty());
        r
    }

    /// The index of the entry of flag `flag`, if it was opened.
    pub fn find_flag(&self, flag: &String) -> (r: Option<usize>)
        ensures
            match r {
                Some(j) => j as int == name_index(names_of(self@.o_args), flag@) && j < self.o_args@.len()
                    && self@.o_args[j as int].0 == flag@,
                None => name_index(names_of(self@.o_args), flag@) == -1,
            },
    {
        let mut i: usize = 0;
        let ghost names = names_of(self@.o_args);
        while i < self.o_args.len()
            invariant
                i <= self.o_args@.len(),
                names == names_of(self@.o_args),
                name_index(names, flag@) == index_from(names, flag@, i as int),
            decreases self.o_args.len() - i,
        {
            assert(names[i as int] == self.o_args@[i as int].0@);
            if self.o_args[i].0 == *flag {
                return Some(i);
            }
            i = i + 1;
        }
        None
    }

    /// Opens flag `flag`: adds an entry without sub-arguments, or resets the
    /// entry of that name to none.
    pub fn open_flag(&mut self, flag: String)
        ensures
            final(self)@ == (InstructionView { o_args: open_flag_spec(old(self)@.o_args, flag@), ..old(self)@ }),
    {
        let ghost f = flag@;
        match self.find_flag(&flag) {
            Some(j) => {
                self.o_args.set(j, (flag, None));
                assert(entries_view(self.o_args@) =~= open_flag_spec(old(self)@.o_args, f));
            },
            None => {
                self.o_args.push((flag, None));
                assert(entries_view(self.o_args@) =~= open_flag_spec(old(self)@.o_args, f));
            },
        }
    }

    /// Attaches sub-argument `token` to the open flag `flag`; fails with
    /// `SubArgWithoutFlag`, changing nothing, when no flag of that name is open.
    pub fn add_sub_arg(&mut self, flag: &String, token: String) -> (r: core::result::Result<(), Error>)
        ensures
            match add_sub_arg_spec(old(self)@.o_args, flag@, token@) {
                Some(e) => r is Ok && final(self)@ == (InstructionView { o_args: e, ..old(self)@ }),
                None => r == Err::<(), Error>(Error::SubArgWithoutFlag) && final(self)@ == old(self)@,
            },
    {
        let ghost tok = token@;
        match self.find_flag(flag) {
            Some(j) => {
                let mut entry: (String, Option<Vec<String>>) = (String::new(), None);
                self.o_args.set_and_swap(j, &mut entry);
                let (name, subs) = entry;
                let subs = match subs {
                    Some(mut xs) => {
                        xs.push(token);
                        assert(strings_view(xs@) =~= strings_view(old(self).o_args@[j as int].1->Some_0@).push(tok));
                        Some(xs)
                    },
                    None => {
                        let xs = vec![token];
                        assert(strings_view(xs@) =~= seq![tok]);
                        Some(xs)
                    },
                };
                self.o_args.set(j, (name, subs));
                assert(entries_view(self.o_args@) =~= add_sub_arg_spec(old(self)@.o_args, flag@, tok)->Some_0);
                Ok(())
            },
            None => Err(Error::SubArgWithoutFlag),
        }
    }

    /// Parses a raw instruction.
    ///
    /// Tokens are separated by spaces. A double quote opens a literal that keeps
    /// spaces and ends at the next double quote; `#"` opens a fenced literal that
    /// also keeps lone quotes and ends at `"#`. A closing literal ends its token;
    /// empty tokens are dropped. The first token is the caller; the tokens
    /// before the first flag (a token starting with `--`) are positional
    /// arguments; after it, each flag opens an entry and each other token is a
    /// sub-argument of the flag opened last. Fails with `MissingCaller` when
    /// there is no token or the first one is a flag, and in no other case.
    pub fn new(input: &str) -> (r: core::result::Result<Instruction, Error>)
        ensures
            match parse_spec(input@) {
                Ok(v) => r matches Ok(ins) && ins@ == v,
                Err(e) => r == Err::<Instruction, Error>(e),
            },
            r is Err ==> r == Err::<Instruction, Error>(Error::MissingCaller),
            r matches Ok(ins) ==> unique_keys(names_of(ins@.o_args)),
    {
        proof {
            crate::laws::lemma_parse_fails_only_without_caller(input@);
        }
        let chars = chars_of(input);
        let spans = scan_tokens(&chars);
        let toks = token_strings(input, &spans);
        let ghost t = tokens(input@);
        let n = toks.len();
        if n == 0 {
            return Err(Error::MissingCaller);
        }
        assert(toks@[0]@ == t[0]);
        if is_flag_token(toks[0].as_str()) {
            return Err(Error::MissingCaller);
        }
        let mut ins = Instruction {
            caller: toks[0].clone(),
            args: Vec::new(),
            o_args: Vec::new(),
            input: String::from_str(input),
        };
        let mut i: usize = 1;
        assert(strings_view(ins.args@) =~= t.subrange(1, 1));
        while i < n
            invariant
                1 <= i <= n,
                n == toks@.len(),
                n == t.len(),
                strings_view(toks@) == t,
                first_flag(t, 1) == first_flag(t, i as int),
                strings_view(ins.args@) == t.subrange(1, i as int),
                ins.o_args@.len() == 0,
                ins.caller@ == t[0],
                ins.input@ == input@,
                t.len() > 0,
                !is_flag(t[0]),
                t == tokens(input@),
            ensures
                1 <= i <= n,
                first_flag(t, 1) == i,
                strings_view(ins.args@) == t.subrange(1, i as int),
                ins.o_args@.len() == 0,
                ins.caller@ == t[0],
                ins.input@ == input@,
                t.len() > 0,
                !is_flag(t[0]),
                t == tokens(input@),
            decreases n - i,
        {
            assert(toks@[i as int]@ == t[i as int]);
            if is_flag_token(toks[i].as_str()) {
                assert(first_flag(t, i as int) == i);
                break;
            }
            let a = toks[i].clone();
            assert(a@ == t[i as int]);
            let ghost before = ins.args@;
            ins.args.push(a);
            assert(ins.args@ == before.push(a));
            assert(strings_view(ins.args@) =~= strings_view(before).push(a@));
            assert(t.subrange(1, i + 1) =~= t.subrange(1, i as int).push(t[i as int]));
            i = i + 1;
        }
        let k = i;
        let mut current = String::new();
        assert(t.subrange(k as int, k as int) =~= Seq::<Seq<char>>::empty());
        assert(entries_view(ins.o_args@) =~= Seq::<(Seq<char>, Option<Seq<Seq<char>>>)>::empty());
        while i < n
            invariant
                1 <= k <= i <= n,
                n == toks@.len(),
                n == t.len(),
                strings_view(toks@) == t,
                first_flag(t, 1) == k,
                fold_flags(t.subrange(k as int, i as int)) == Some((ins@.o_args, current@)),
                strings_view(ins.args@) == t.subrange(1, k as int),
                ins.caller@ == t[0],
                ins.input@ == input@,
                t.len() > 0,
                !is_flag(t[0]),
                t == tokens(input@),
            decreases n - i,
        {
            assert(toks@[i as int]@ == t[i as int]);
            assert(t.subrange(k as int, i + 1).drop_last() =~= t.subrange(k as int, i as int));
            assert(t.subrange(k as int, i + 1).last() == t[i as int]);
            if is_flag_token(toks[i].as_str()) {
                ins.open_flag(toks[i].clone());
                current = toks[i].clone();
            } else {
                match ins.add_sub_arg(&current, toks[i].clone()) {
                    Ok(()) => {},
                    Err(e) => {
                        assert(fold_flags(t.subrange(k as int, i + 1)) is None);
                        proof {
                            lemma_fold_none(t, k as int, i + 1, n as int);
                            crate::laws::lemma_parse_fails_only_without_caller(input@);
                        }
                        assert(t.subrange(k as int, n as int) == t.subrange(k as int, t.len() as int));
                        return Err(e);
                    },
                }
            }
            i = i + 1;
        }
        assert(t.subrange(k as int, n as int) == t.subrange(k as int, t.len() as int));
        Ok(ins)
    }
}

} // verus!
