//! The constants that a script and its base scripts declare, as the parsers
//! read them: enums are dictionaries from member names to integers.

use vstd::prelude::*;
use vstd::string::*;

use crate::text::str_eq;

verus! {

/// A value held in a constant dictionary (an enum's member).
pub enum MemberValue {
    Int(i64),
    /// Any other value, with the engine's name for its type.
    Other(String),
}

/// One key and value of a constant dictionary; the key as the engine writes it.
pub struct DictionaryEntry {
    pub key: String,
    pub value: MemberValue,
}

/// The value of a constant.
pub enum ConstantValue {
    /// A dictionary, as an enum is, with its entries in declaration order.
    Dictionary(Vec<DictionaryEntry>),
    /// Any other value, with the engine's name for its type.
    Other(String),
}

/// A named constant.
pub struct Constant {
    pub name: String,
    pub value: ConstantValue,
}

/// The constants of a script and its bases, one per name, in the order the
/// engine lists them.
pub struct Constants {
    pub entries: Vec<Constant>,
}

/// The position of the first constant named `name` from `i` on.
pub open spec fn find_constant(entries: Seq<Constant>, name: Seq<char>, i: int) -> Option<int>
    decreases entries.len() - i,
{
    if i < 0 || i >= entries.len() {
        None
    } else if entries[i].name@ == name {
        Some(i)
    } else {
        find_constant(entries, name, i + 1)
    }
}

pub proof fn lemma_find_constant_in_range(entries: Seq<Constant>, name: Seq<char>, i: int)
    requires
        0 <= i,
    ensures
        find_constant(entries, name, i) matches Some(k) ==> i <= k < entries.len()
            && entries[k].name@ == name,
    decreases entries.len() - i,
{
    if i < entries.len() && entries[i].name@ != name {
        lemma_find_constant_in_range(entries, name, i + 1);
    }
}

/// No two constants share a name.
pub open spec fn names_distinct(entries: Seq<Constant>) -> bool {
    forall|i: int, j: int|
        0 <= i < entries.len() && 0 <= j < entries.len() && i != j ==> (#[trigger] entries[i]).name@
            != (#[trigger] entries[j]).name@
}

/// The constants after setting `c`: a constant of the same name is replaced
/// where it stands, else `c` comes last.
pub open spec fn set_constant(entries: Seq<Constant>, c: Constant) -> Seq<Constant> {
    match find_constant(entries, c.name@, 0) {
        Some(i) => entries.update(i, c),
        None => entries.push(c),
    }
}

pub proof fn lemma_find_constant_first(entries: Seq<Constant>, name: Seq<char>, i: int, k: int)
    requires
        0 <= i <= k < entries.len(),
        entries[k].name@ == name,
        forall|j: int| i <= j < k ==> (#[trigger] entries[j]).name@ != name,
    ensures
        find_constant(entries, name, i) == Some(k),
    decreases k - i,
{
    if i < k {
        lemma_find_constant_first(entries, name, i + 1, k);
    }
}

pub proof fn lemma_find_constant_some(entries: Seq<Constant>, name: Seq<char>, i: int, j: int)
    requires
        0 <= i <= j < entries.len(),
        entries[j].name@ == name,
    ensures
        find_constant(entries, name, i) is Some,
    decreases j - i,
{
    if i < j && entries[i].name@ != name {
        lemma_find_constant_some(entries, name, i + 1, j);
    }
}

pub proof fn lemma_find_constant_none(entries: Seq<Constant>, name: Seq<char>, i: int)
    requires
        0 <= i,
        forall|j: int| i <= j < entries.len() ==> (#[trigger] entries[j]).name@ != name,
    ensures
        find_constant(entries, name, i) is None,
    decreases entries.len() - i,
{
    if i < entries.len() {
        lemma_find_constant_none(entries, name, i + 1);
    }
}

/// After a constant is set, looking its name up finds it; the other names
/// find what they found before.
pub proof fn lemma_set_then_lookup(entries: Seq<Constant>, c: Constant, name: Seq<char>)
    requires
        names_distinct(entries),
    ensures
        names_distinct(set_constant(entries, c)),
        match find_constant(set_constant(entries, c), name, 0) {
            Some(k) => if name == c.name@ {
                set_constant(entries, c)[k] == c
            } else {
                find_constant(entries, name, 0) == Some(k)
            },
            None => name != c.name@ && find_constant(entries, name, 0) is None,
        },
{
    let after = set_constant(entries, c);
    lemma_find_constant_in_range(entries, c.name@, 0);
    lemma_find_constant_in_range(entries, name, 0);
    lemma_find_constant_in_range(after, name, 0);
    match find_constant(entries, c.name@, 0) {
        Some(i) => {
            assert forall|a: int, b: int|
                0 <= a < after.len() && 0 <= b < after.len() && a != b implies (#[trigger] after[a]).name@
                != (#[trigger] after[b]).name@ by {
                if a != i && b != i {
                    assert(after[a] == entries[a] && after[b] == entries[b]);
                } else if a == i {
                    assert(after[b] == entries[b]);
                    assert(entries[i].name@ == c.name@);
                } else {
                    assert(after[a] == entries[a]);
                    assert(entries[i].name@ == c.name@);
                }
            }
            match find_constant(after, name, 0) {
                Some(k) => {
                    if name == c.name@ {
                        if k != i {
                            assert(after[k] == entries[k]);
                            assert(entries[k].name@ == entries[i].name@);
                        }
                    } else {
                        assert(k != i);
                        assert(after[k] == entries[k]);
                        assert forall|j: int| 0 <= j < k implies (#[trigger] entries[j]).name@ != name by {
                            if j != i {
                                assert(after[j] == entries[j]);
                            }
                        }
                        lemma_find_constant_first(entries, name, 0, k);
                    }
                },
                None => {
                    if name == c.name@ {
                        assert(after[i].name@ == name);
                        lemma_find_constant_first(after, name, 0, i);
                    } else {
                        assert forall|j: int| 0 <= j < entries.len() implies (#[trigger] entries[j]).name@
                            != name by {
                            if j != i {
                                assert(after[j] == entries[j]);
                                if entries[j].name@ == name {
                                    lemma_find_constant_some(after, name, 0, j);
                                }
                            }
                        }
                        lemma_find_constant_none(entries, name, 0);
                    }
                },
            }
        },
        None => {
            assert forall|j: int| 0 <= j < entries.len() implies (#[trigger] entries[j]).name@ != c.name@ by {
                if entries[j].name@ == c.name@ {
                    lemma_find_constant_first(entries, c.name@, 0, j);
                }
            }
            let n = entries.len() as int;
            match find_constant(after, name, 0) {
                Some(k) => {
                    if name == c.name@ {
                        if k != n {
                            assert(after[k] == entries[k]);
                        }
                    } else {
                        assert(k != n);
                        assert(after[k] == entries[k]);
                        assert forall|j: int| 0 <= j < k implies (#[trigger] entries[j]).name@ != name by {
                            assert(after[j] == entries[j]);
                        }
                        lemma_find_constant_first(entries, name, 0, k);
                    }
                },
                None => {
                    if name == c.name@ {
                        lemma_find_constant_first(after, name, 0, n);
                    } else {
                        assert forall|j: int| 0 <= j < entries.len() implies (#[trigger] entries[j]).name@
                            != name by {
                            assert(after[j] == entries[j]);
                            if entries[j].name@ == name {
                                lemma_find_constant_some(after, name, 0, j);
                            }
                        }
                        lemma_find_constant_none(entries, name, 0);
                    }
                },
            }
        },
    }
}

impl Constants {
    /// The constant named `name`.
    pub open spec fn lookup(&self, name: Seq<char>) -> Option<int> {
        find_constant(self.entries@, name, 0)
    }

    /// No constants yet.
    pub fn new() -> (r: Self)
        ensures
            r.entries@ == Seq::<Constant>::empty(),
    {
        Constants { entries: Vec::new() }
    }

    /// Sets a constant, as a script's constants are gathered from its base
    /// scripts down: a later constant of the same name replaces the earlier
    /// one where it stands.
    pub fn set(&mut self, constant: Constant)
        ensures
            final(self).entries@ == set_constant(old(self).entries@, constant),
    {
        proof {
            lemma_find_constant_in_range(self.entries@, constant.name@, 0);
        }
        match self.get(constant.name.as_str()) {
            Some(i) => {
                self.entries.set(i, constant);
            },
            None => {
                self.entries.push(constant);
            },
        }
    }

    /// The position of the constant named `name`, if there is one.
    pub fn get(&self, name: &str) -> (r: Option<usize>)
        ensures
            match r {
                Some(i) => self.lookup(name@) == Some(i as int) && i < self.entries.len(),
                None => self.lookup(name@) is None,
            },
    {
        proof {
            lemma_find_constant_in_range(self.entries@, name@, 0);
        }
        let mut i: usize = 0;
        while i < self.entries.len()
            invariant
                i <= self.entries.len(),
                self.lookup(name@) == find_constant(self.entries@, name@, i as int),
            decreases self.entries.len() - i,
        {
            if str_eq(self.entries[i].name.as_str(), name) {
                return Some(i);
            }
            i = i + 1;
        }
        None
    }
}

} // verus!
