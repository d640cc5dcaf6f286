use vstd::prelude::*;
use crate::error::Error;

verus! {

/// Whether some entry of `e` is named `k`.
pub open spec fn has_name<C>(e: Seq<(String, C)>, k: Seq<char>) -> bool {
    exists|i: int| 0 <= i < e.len() && (#[trigger] e[i]).0@ == k
}

/// The index of the entry named `k` (meaningful when there is one).
pub open spec fn entry_of<C>(e: Seq<(String, C)>, k: Seq<char>) -> int {
    choose|i: int| 0 <= i < e.len() && (#[trigger] e[i]).0@ == k
}

/// No two entries share a name.
pub open spec fn unique_names<C>(e: Seq<(String, C)>) -> bool {
    forall|i: int, j: int|
        0 <= i < e.len() && 0 <= j < e.len() && (#[trigger] e[i]).0@ == (#[trigger] e[j]).0@ ==> i == j
}

/// The map from name to command that a sequence of uniquely named entries holds.
pub open spec fn entries_map<C>(e: Seq<(String, C)>) -> Map<Seq<char>, C> {
    Map::new(|k: Seq<char>| has_name(e, k), |k: Seq<char>| e[entry_of(e, k)].1)
}

/// What `insert` does to a registry with contents `m` and help token `help`:
/// the new contents and the outcome.
pub open spec fn insert_spec<C>(m: Map<Seq<char>, C>, help: Seq<char>, name: Seq<char>, c: C) -> (
    Map<Seq<char>, C>,
    core::result::Result<(), Error>,
) {
    if m.contains_key(name) || name == help {
        (m, Err(Error::DuplicateName))
    } else {
        (m.insert(name, c), Ok(()))
    }
}

/// A table from command name to command, in which names are unique and the
/// help token is reserved.
pub struct Registry<C> {
    entries: Vec<(String, C)>,
    help_token: String,
}

impl<C> View for Registry<C> {
    type V = Map<Seq<char>, C>;

    closed spec fn view(&self) -> Map<Seq<char>, C> {
        entries_map(self.entries@)
    }
}

impl<C> Registry<C> {
    /// The reserved name that asks a command for its help.
    pub closed spec fn help(&self) -> Seq<char> {
        self.help_token@
    }

    /// Names are unique and none of them is the help token.
    pub closed spec fn wf(&self) -> bool {
        &&& unique_names(self.entries@)
        &&& !has_name(self.entries@, self.help_token@)
    }

    /// An empty registry that reserves `help_token`.
    pub fn new(help_token: String) -> (r: Self)
        ensures
            r.wf(),
            r@ == Map::<Seq<char>, C>::empty(),
            r.help() == help_token@,
    {
        let r = Registry { entries: Vec::new(), help_token };
        assert(r@ =~= Map::<Seq<char>, C>::empty());
        r
    }

    /// The reserved help token.
    pub fn help_token(&self) -> (r: &String)
        ensures
            r@ == self.help(),
    {
        &self.help_token
    }

    fn index_of(&self, name: &String) -> (r: Option<usize>)
        ensures
            match r {
                Some(i) => i < self.entries@.len() && self.entries@[i as int].0@ == name@,
                None => !has_name(self.entries@, name@),
            },
    {
        let mut i: usize = 0;
        while i < self.entries.len()
            invariant
                i <= self.entries@.len(),
                forall|j: int| 0 <= j < i ==> (#[trigger] self.entries@[j]).0@ != name@,
            decreases self.entries.len() - i,
        {
            if self.entries[i].0 == *name {
                return Some(i);
            }
            i = i + 1;
        }
        None
    }

    /// Whether a command is registered under `name`.
    pub fn contains(&self, name: &String) -> (r: bool)
        ensures
            r == self@.contains_key(name@),
    {
        self.index_of(name).is_some()
    }

    /// The command registered under `name`, if any.
    pub fn lookup(&self, name: &String) -> (r: Option<&C>)
        requires
            self.wf(),
        ensures
            match r {
                Some(c) => self@.contains_key(name@) && *c == self@[name@],
                None => !self@.contains_key(name@),
            },
    {
        match self.index_of(name) {
            Some(i) => {
                let ghost k = name@;
                assert(has_name(self.entries@, k));
                assert(entry_of(self.entries@, k) == i);
                Some(&self.entries[i].1)
            },
            None => None,
        }
    }

    /// Whether the registry holds no command.
    pub fn is_empty(&self) -> (r: bool)
        ensures
            r == (self@ == Map::<Seq<char>, C>::empty()),
    {
        proof {
            if self.entries@.len() > 0 {
                assert(self@.contains_key(self.entries@[0].0@));
                assert(!Map::<Seq<char>, C>::empty().contains_key(self.entries@[0].0@));
            } else {
                assert(self@ =~= Map::<Seq<char>, C>::empty());
            }
        }
        self.entries.len() == 0
    }

    /// Registers `command` under `name`. Fails with `DuplicateName`, changing
    /// nothing, when the name is taken or is the help token.
    pub fn insert(&mut self, name: String, command: C) -> (r: core::result::Result<(), Error>)
        requires
            old(self).wf(),
        ensures
            final(self).wf(),
            final(self).help() == old(self).help(),
            (final(self)@, r) == insert_spec(old(self)@, old(self).help(), name@, command),
    {
        if self.index_of(&name).is_some() || name == self.help_token {
            return Err(Error::DuplicateName);
        }
        let ghost k = name@;
        let ghost old_e = self.entries@;
        self.entries.push((name, command));
        let ghost e = self.entries@;
        assert(e[old_e.len() as int].0@ == k);
        assert forall|k2: Seq<char>| has_name(e, k2) == (has_name(old_e, k2) || k2 == k) by {
            if has_name(old_e, k2) {
                let i = choose|i: int| 0 <= i < old_e.len() && (#[trigger] old_e[i]).0@ == k2;
                assert(e[i] == old_e[i]);
            }
            if has_name(e, k2) && k2 != k {
                let i = choose|i: int| 0 <= i < e.len() && (#[trigger] e[i]).0@ == k2;
                assert(i < old_e.len());
                assert(old_e[i] == e[i]);
            }
        }
        assert forall|k2: Seq<char>| has_name(e, k2) && k2 != k implies entry_of(e, k2) == entry_of(old_e, k2) by {
            let i = entry_of(e, k2);
            let j = entry_of(old_e, k2);
            assert(e[j] == old_e[j]);
        }
        assert(entry_of(e, k) == old_e.len());
        assert(self@ =~= old(self)@.insert(k, command));
        assert(!has_name(e, self.help_token@));
        Ok(())
    }

    /// Removes the command registered under `name` and returns it; `None`,
    /// changing nothing, when there is none.
    pub fn remove(&mut self, name: &String) -> (r: Option<C>)
        requires
            old(self).wf(),
        ensures
            final(self).wf(),
            final(self).help() == old(self).help(),
            final(self)@ == old(self)@.remove(name@),
            r == (if old(self)@.contains_key(name@) { Some(old(self)@[name@]) } else { None::<C> }),
    {
        match self.index_of(name) {
            Some(i) => {
                let ghost k = name@;
                let ghost old_e = self.entries@;
                assert(entry_of(old_e, k) == i);
                let (_, c) = self.entries.remove(i);
                let ghost e = self.entries@;
                assert forall|k2: Seq<char>| has_name(e, k2) == (has_name(old_e, k2) && k2 != k) by {
                    if has_name(e, k2) {
                        let j = choose|j: int| 0 <= j < e.len() && (#[trigger] e[j]).0@ == k2;
                        if j < i {
                            assert(old_e[j] == e[j]);
                        } else {
                            assert(old_e[j + 1] == e[j]);
                        }
                    }
                    if has_name(old_e, k2) && k2 != k {
                        let j = choose|j: int| 0 <= j < old_e.len() && (#[trigger] old_e[j]).0@ == k2;
                        if j < i {
                            assert(old_e[j] == e[j]);
                        } else {
                            assert(j != i);
                            assert(old_e[j] == e[j - 1]);
                        }
                    }
                }
                assert forall|k2: Seq<char>| has_name(e, k2) implies e[entry_of(e, k2)].1 == old_e[entry_of(old_e, k2)].1 by {
                    let j = entry_of(e, k2);
                    let j0 = entry_of(old_e, k2);
                    if j < i {
                        assert(old_e[j] == e[j]);
                    } else {
                        assert(old_e[j + 1] == e[j]);
                    }
                }
                assert forall|a: int, b: int|
                    0 <= a < e.len() && 0 <= b < e.len() && (#[trigger] e[a]).0@ == (#[trigger] e[b]).0@ implies a == b by {
                    let a0 = if a < i { a } else { a + 1 };
                    let b0 = if b < i { b } else { b + 1 };
                    assert(old_e[a0] == e[a]);
                    assert(old_e[b0] == e[b]);
                }
                assert(self@ =~= old(self)@.remove(k));
                Some(c)
            },
            None => {
                assert(old(self)@.remove(name@) =~= old(self)@);
                None
            },
        }
    }
}

} // verus!
