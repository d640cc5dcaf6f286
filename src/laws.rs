use vstd::prelude::*;
use crate::actor::{ActorState, Directive, Reply, after, reply_fits};
use crate::error::Error;
use crate::instruction::{
    Mode, ScanState, add_sub_arg_spec, first_flag, fold_flags, index_from, is_flag, name_index,
    names_of, open_flag_spec, parse_spec, scan, tokens, token_spans, unique_keys,
};
use crate::registry::insert_spec;

verus! {

/// The state after the directives `ds`, taken in order.
pub open spec fn run_all<C>(s: ActorState<C>, ds: Seq<Directive<C>>) -> ActorState<C>
    decreases ds.len(),
{
    if ds.len() == 0 {
        s
    } else {
        after(run_all(s, ds.drop_last()), ds.last())
    }
}

/// The name that a `CommandAdd` registers.
pub open spec fn added_name<C>(d: Directive<C>) -> Seq<char> {
    match d {
        Directive::CommandAdd { name, .. } => name@,
        _ => Seq::empty(),
    }
}

/// An instruction whose first token is a flag, or that has no token at all,
/// has no caller: parsing it fails with `MissingCaller`.
pub proof fn lemma_flag_first_has_no_caller(s: Seq<char>)
    requires
        tokens(s).len() == 0 || is_flag(tokens(s)[0]),
    ensures
        parse_spec(s) == Err::<crate::instruction::InstructionView, Error>(Error::MissingCaller),
{
}

proof fn lemma_scan_blank(s: Seq<char>, n: nat)
    requires
        n <= s.len(),
        forall|i: int| 0 <= i < s.len() ==> s[i] == ' ',
    ensures
        scan(s, n) == (ScanState { mode: Mode::Plain, start: n as int, spans: Seq::empty() }),
    decreases n,
{
    if n > 0 {
        lemma_scan_blank(s, (n - 1) as nat);
    }
}

/// An instruction made of spaces alone (the empty one too) has no caller:
/// parsing it fails with `MissingCaller`.
pub proof fn lemma_blank_input_has_no_caller(s: Seq<char>)
    requires
        forall|i: int| 0 <= i < s.len() ==> s[i] == ' ',
    ensures
        parse_spec(s) == Err::<crate::instruction::InstructionView, Error>(Error::MissingCaller),
{
    lemma_scan_blank(s, s.len());
    assert(token_spans(s).len() == 0);
}

/// A sub-argument cannot be attached before a flag of that name is opened:
/// the attempt fails (with `SubArgWithoutFlag`, see `Instruction::add_sub_arg`).
pub proof fn lemma_sub_arg_without_flag_fails(
    e: Seq<(Seq<char>, Option<Seq<Seq<char>>>)>,
    f: Seq<char>,
    tok: Seq<char>,
)
    requires
        forall|i: int| 0 <= i < e.len() ==> (#[trigger] e[i]).0 != f,
    ensures
        add_sub_arg_spec(e, f, tok) is None,
{
    lemma_absent_name_index(names_of(e), f, 0);
}

proof fn lemma_index_from(names: Seq<Seq<char>>, k: Seq<char>, from: int)
    requires
        0 <= from,
    ensures
        index_from(names, k, from) >= 0 ==> from <= index_from(names, k, from) < names.len()
            && names[index_from(names, k, from)] == k,
        index_from(names, k, from) < 0 ==> index_from(names, k, from) == -1 && forall|i: int|
            from <= i < names.len() ==> names[i] != k,
    decreases names.len() - from,
{
    if from < names.len() {
        lemma_index_from(names, k, from + 1);
    }
}

/// The flag entries built from `t` (empty when building fails).
pub open spec fn flag_entries(t: Seq<Seq<char>>) -> Seq<(Seq<char>, Option<Seq<Seq<char>>>)> {
    match fold_flags(t) {
        Some(st) => st.0,
        None => Seq::empty(),
    }
}

/// The flag opened last in `t`.
pub open spec fn flag_current(t: Seq<Seq<char>>) -> Seq<char> {
    match fold_flags(t) {
        Some(st) => st.1,
        None => Seq::empty(),
    }
}

proof fn lemma_fold_flag_first(t: Seq<Seq<char>>)
    requires
        t.len() > 0,
        is_flag(t[0]),
    ensures
        fold_flags(t) is Some,
        name_index(names_of(flag_entries(t)), flag_current(t)) >= 0,
        unique_keys(names_of(flag_entries(t))),
    decreases t.len(),
{
    let tok = t.last();
    let (e, cur) = if t.len() == 1 {
        assert(fold_flags(t.drop_last()) == Some(
            (Seq::<(Seq<char>, Option<Seq<Seq<char>>>)>::empty(), Seq::<char>::empty()),
        ));
        (Seq::<(Seq<char>, Option<Seq<Seq<char>>>)>::empty(), Seq::<char>::empty())
    } else {
        lemma_fold_flag_first(t.drop_last());
        (flag_entries(t.drop_last()), flag_current(t.drop_last()))
    };
    let names = names_of(e);
    if t.len() > 1 {
        lemma_index_from(names, cur, 0);
    }
    if is_flag(tok) {
        lemma_index_from(names, tok, 0);
        let e2 = open_flag_spec(e, tok);
        let j = name_index(names, tok);
        if j >= 0 {
            assert(names_of(e2) =~= names);
        } else {
            assert(names_of(e2) =~= names.push(tok));
            assert(names_of(e2)[names.len() as int] == tok);
            lemma_index_from(names_of(e2), tok, 0);
        }
        lemma_index_from(names_of(e2), tok, 0);
    } else {
        assert(t.len() > 1);
        let j = name_index(names, cur);
        let e2 = match add_sub_arg_spec(e, cur, tok) {
            Some(x) => x,
            None => e,
        };
        assert(names_of(e2) =~= names);
        assert(fold_flags(t) == Some((e2, cur)));
    }
}

proof fn lemma_first_flag(t: Seq<Seq<char>>, from: int)
    requires
        0 <= from,
    ensures
        from <= first_flag(t, from) <= t.len() || (from > t.len() && first_flag(t, from) == t.len()),
        first_flag(t, from) < t.len() ==> is_flag(t[first_flag(t, from)]),
    decreases t.len() - from,
{
    if from < t.len() {
        lemma_first_flag(t, from + 1);
    }
}

/// Parsing fails only for want of a caller: once a caller is there, every
/// token before the first flag is a positional argument and every later one
/// belongs to a flag, so `SubArgWithoutFlag` never comes out of parsing. The
/// flags of a parsed instruction have distinct names.
pub proof fn lemma_parse_fails_only_without_caller(s: Seq<char>)
    ensures
        parse_spec(s) is Err ==> parse_spec(s) == Err::<crate::instruction::InstructionView, Error>(
            Error::MissingCaller,
        ),
        parse_spec(s) is Ok ==> unique_keys(names_of(parse_spec(s)->Ok_0.o_args)),
{
    let t = tokens(s);
    if t.len() > 0 && !is_flag(t[0]) {
        let k = first_flag(t, 1);
        lemma_first_flag(t, 1);
        let rest = t.subrange(k, t.len() as int);
        if k < t.len() {
            assert(rest[0] == t[k]);
            lemma_fold_flag_first(rest);
        } else {
            assert(rest =~= Seq::<Seq<char>>::empty());
            assert(names_of(flag_entries(rest)) =~= Seq::<Seq<char>>::empty());
        }
    }
}

proof fn lemma_absent_name_index(names: Seq<Seq<char>>, k: Seq<char>, from: int)
    requires
        0 <= from,
        forall|i: int| 0 <= i < names.len() ==> names[i] != k,
    ensures
        crate::instruction::index_from(names, k, from) == -1,
    decreases names.len() - from,
{
    if from < names.len() {
        lemma_absent_name_index(names, k, from + 1);
    }
}

/// Registering a name that is taken, or that is the help token, fails with
/// `DuplicateName` and leaves the table as it was: a later lookup still finds
/// the command registered first.
pub proof fn lemma_duplicate_insert_keeps_entry<C>(
    m: Map<Seq<char>, C>,
    help: Seq<char>,
    name: Seq<char>,
    c: C,
)
    requires
        m.contains_key(name) || name == help,
    ensures
        insert_spec(m, help, name, c) == (m, Err::<(), Error>(Error::DuplicateName)),
        m.contains_key(name) ==> insert_spec(m, help, name, c).0[name] == m[name],
{
}

proof fn lemma_run_all_stopped<C>(s: ActorState<C>, ds: Seq<Directive<C>>)
    requires
        !s.running,
    ensures
        run_all(s, ds) == s,
    decreases ds.len(),
{
    if ds.len() > 0 {
        lemma_run_all_stopped(s, ds.drop_last());
    }
}

/// After `Close` the engine stays stopped, whatever comes next, and every
/// directive sent afterwards is rejected with `NotRunning`.
pub proof fn lemma_closed_engine_rejects<C: Clone>(s: ActorState<C>, ds: Seq<Directive<C>>, i: int, r: Reply<C>)
    requires
        0 <= i < ds.len(),
        reply_fits(run_all(after(s, Directive::Close), ds.take(i)), ds[i], r),
    ensures
        r == Reply::<C>::Rejected(Error::NotRunning),
        !run_all(after(s, Directive::Close), ds).running,
{
    let s1 = after(s, Directive::<C>::Close);
    assert(!s1.running);
    lemma_run_all_stopped(s1, ds.take(i));
    lemma_run_all_stopped(s1, ds);
}

proof fn lemma_adds_prefix<C>(s: ActorState<C>, ds: Seq<Directive<C>>, n: int)
    requires
        0 <= n <= ds.len(),
        s.running,
        forall|i: int| 0 <= i < ds.len() ==> (#[trigger] ds[i]) is CommandAdd,
        forall|i: int| 0 <= i < ds.len() ==> !s.commands.contains_key(#[trigger] added_name(ds[i])),
        forall|i: int| 0 <= i < ds.len() ==> #[trigger] added_name(ds[i]) != s.help,
        forall|i: int, j: int|
            0 <= i < ds.len() && 0 <= j < ds.len() && i != j ==> #[trigger] added_name(ds[i])
                != #[trigger] added_name(ds[j]),
    ensures
        run_all(s, ds.take(n)).running,
        run_all(s, ds.take(n)).help == s.help,
        forall|j: int| 0 <= j < n ==> run_all(s, ds.take(n)).commands.contains_key(#[trigger] added_name(ds[j])),
        forall|j: int|
            n <= j < ds.len() ==> !run_all(s, ds.take(n)).commands.contains_key(#[trigger] added_name(ds[j])),
    decreases n,
{
    if n == 0 {
        assert(ds.take(0) =~= Seq::<Directive<C>>::empty());
    } else {
        lemma_adds_prefix(s, ds, n - 1);
        assert(ds.take(n).drop_last() =~= ds.take(n - 1));
        assert(ds.take(n).last() == ds[n - 1]);
        let p = run_all(s, ds.take(n - 1));
        assert(ds[n - 1] is CommandAdd);
        assert forall|j: int| n <= j < ds.len() implies !run_all(s, ds.take(n)).commands.contains_key(
            #[trigger] added_name(ds[j]),
        ) by {
            assert(added_name(ds[j]) != added_name(ds[n - 1]));
        }
    }
}

/// Adding commands under distinct fresh names (none taken, none the help
/// token) succeeds for every one of them, in whatever order the adds arrive,
/// and afterwards every name is registered.
pub proof fn lemma_distinct_adds_all_succeed<C: Clone>(s: ActorState<C>, ds: Seq<Directive<C>>)
    requires
        s.running,
        forall|i: int| 0 <= i < ds.len() ==> (#[trigger] ds[i]) is CommandAdd,
        forall|i: int| 0 <= i < ds.len() ==> !s.commands.contains_key(#[trigger] added_name(ds[i])),
        forall|i: int| 0 <= i < ds.len() ==> #[trigger] added_name(ds[i]) != s.help,
        forall|i: int, j: int|
            0 <= i < ds.len() && 0 <= j < ds.len() && i != j ==> #[trigger] added_name(ds[i])
                != #[trigger] added_name(ds[j]),
    ensures
        forall|i: int, r: Reply<C>|
            0 <= i < ds.len() && #[trigger] reply_fits(run_all(s, ds.take(i)), ds[i], r) ==> r
                == Reply::<C>::Added(Ok(())),
        forall|j: int| 0 <= j < ds.len() ==> run_all(s, ds).commands.contains_key(#[trigger] added_name(ds[j])),
        run_all(s, ds).running,
{
    assert forall|i: int, r: Reply<C>|
        0 <= i < ds.len() && #[trigger] reply_fits(run_all(s, ds.take(i)), ds[i], r) implies r
            == Reply::<C>::Added(Ok(())) by {
        lemma_adds_prefix(s, ds, i);
        let p = run_all(s, ds.take(i));
        assert(!p.commands.contains_key(added_name(ds[i])));
        assert(added_name(ds[i]) != s.help);
        match ds[i] {
            Directive::CommandAdd { name, command } => {
                assert(insert_spec(p.commands, p.help, name@, command).1 == Ok::<(), Error>(()));
            },
            _ => {},
        }
    }
    lemma_adds_prefix(s, ds, ds.len() as int);
    assert(ds.take(ds.len() as int) =~= ds);
}

/// After such adds, asking whether one of the names exists is answered yes.
pub proof fn lemma_added_names_exist<C: Clone>(
    s: ActorState<C>,
    ds: Seq<Directive<C>>,
    j: int,
    q: Directive<C>,
    r: Reply<C>,
)
    requires
        s.running,
        forall|i: int| 0 <= i < ds.len() ==> (#[trigger] ds[i]) is CommandAdd,
        forall|i: int| 0 <= i < ds.len() ==> !s.commands.contains_key(#[trigger] added_name(ds[i])),
        forall|i: int| 0 <= i < ds.len() ==> #[trigger] added_name(ds[i]) != s.help,
        forall|i: int, k: int|
            0 <= i < ds.len() && 0 <= k < ds.len() && i != k ==> #[trigger] added_name(ds[i])
                != #[trigger] added_name(ds[k]),
        0 <= j < ds.len(),
        q matches Directive::Exists { name } && name@ == added_name(ds[j]),
        reply_fits(run_all(s, ds), q, r),
    ensures
        r == Reply::<C>::Found(true),
{
    lemma_distinct_adds_all_succeed(s, ds);
    assert(run_all(s, ds).commands.contains_key(added_name(ds[j])));
}

/// Two adds under one fresh name: whichever is taken first succeeds, and the
/// other fails with `DuplicateName`.
pub proof fn lemma_same_name_adds<C: Clone>(
    s: ActorState<C>,
    d1: Directive<C>,
    d2: Directive<C>,
    r1: Reply<C>,
    r2: Reply<C>,
)
    requires
        s.running,
        d1 is CommandAdd,
        d2 is CommandAdd,
        added_name(d1) == added_name(d2),
        !s.commands.contains_key(added_name(d1)),
        added_name(d1) != s.help,
        reply_fits(s, d1, r1),
        reply_fits(after(s, d1), d2, r2),
    ensures
        r1 == Reply::<C>::Added(Ok(())),
        r2 == Reply::<C>::Added(Err(Error::DuplicateName)),
{
}

} // verus!
