//! The changes that one edit makes to an object's properties, kept so that
//! they can be committed, or undone, as one action.

use vstd::prelude::*;
use vstd::string::*;

use crate::text::{str_eq, string_of};

verus! {

/// A property's value before and after an edit.
pub struct PropertyChange<V> {
    pub name: String,
    pub old_value: V,
    pub new_value: V,
}

/// The changes of one edit: one per property, in the order the properties
/// first changed.
pub struct PropertyChanges<V> {
    changes: Vec<PropertyChange<V>>,
}

/// The changes as (name, value before, value after).
pub open spec fn change_views<V>(changes: Seq<PropertyChange<V>>) -> Seq<(Seq<char>, V, V)> {
    changes.map_values(|c: PropertyChange<V>| (c.name@, c.old_value, c.new_value))
}

/// No name comes twice.
pub open spec fn names_distinct<V>(changes: Seq<(Seq<char>, V, V)>) -> bool {
    forall|i: int, j: int|
        0 <= i < changes.len() && 0 <= j < changes.len() && i != j ==> (#[trigger] changes[i]).0
            != (#[trigger] changes[j]).0
}

/// The position of the change of `name`.
pub open spec fn index_of_name<V>(changes: Seq<(Seq<char>, V, V)>, name: Seq<char>) -> Option<int> {
    if exists|i: int| 0 <= i < changes.len() && (#[trigger] changes[i]).0 == name {
        Some(choose|i: int| 0 <= i < changes.len() && (#[trigger] changes[i]).0 == name)
    } else {
        None
    }
}

/// The changes after one more change of `name` from `old_value` to
/// `new_value`: a property that changed before keeps its first value before
/// and takes the new value after; another is added at the end.
pub open spec fn record_change<V>(
    changes: Seq<(Seq<char>, V, V)>,
    name: Seq<char>,
    old_value: V,
    new_value: V,
) -> Seq<(Seq<char>, V, V)> {
    match index_of_name(changes, name) {
        Some(i) => changes.update(i, (name, changes[i].1, new_value)),
        None => changes.push((name, old_value, new_value)),
    }
}

impl<V> View for PropertyChanges<V> {
    type V = Seq<(Seq<char>, V, V)>;

    closed spec fn view(&self) -> Seq<(Seq<char>, V, V)> {
        change_views(self.changes@)
    }
}

impl<V> PropertyChanges<V> {
    /// One change per property name.
    pub open spec fn wf(&self) -> bool {
        names_distinct(self@)
    }

    /// No changes yet.
    pub fn new() -> (r: Self)
        ensures
            r@ == Seq::<(Seq<char>, V, V)>::empty(),
            r.wf(),
    {
        let r = PropertyChanges { changes: Vec::new() };
        assert(r@ =~= Seq::<(Seq<char>, V, V)>::empty());
        r
    }

    /// Records that `name` changed from `old_value` to `new_value`.
    pub fn record(&mut self, name: &str, old_value: V, new_value: V)
        requires
            old(self).wf(),
        ensures
            final(self)@ == record_change(old(self)@, name@, old_value, new_value),
            final(self).wf(),
    {
        let ghost before = self@;
        let mut i: usize = 0;
        while i < self.changes.len()
            invariant
                i <= self.changes.len(),
                before == change_views(self.changes@),
                before == old(self)@,
                names_distinct(before),
                forall|j: int| 0 <= j < i ==> (#[trigger] before[j]).0 != name@,
            decreases self.changes.len() - i,
        {
            if str_eq(self.changes[i].name.as_str(), name) {
                assert(before[i as int].0 == name@);
                assert(index_of_name(before, name@) == Some(i as int)) by {
                    let k = choose|k: int| 0 <= k < before.len() && (#[trigger] before[k]).0 == name@;
                    assert(k == i);
                }
                let mut change = self.changes.remove(i);
                change.new_value = new_value;
                self.changes.insert(i, change);
                assert(self@ =~= before.update(i as int, (name@, before[i as int].1, new_value)));
                assert(record_change(before, name@, old_value, new_value) == before.update(
                    i as int,
                    (name@, before[i as int].1, new_value),
                ));
                assert(old(self)@ == before);
                return;
            }
            i = i + 1;
        }
        assert(index_of_name(before, name@) is None);
        self.changes.push(PropertyChange { name: string_of(name), old_value, new_value });
        assert(self@ =~= before.push((name@, old_value, new_value)));
    }

    /// The changes, in the order the properties first changed.
    pub fn into_changes(self) -> (r: Vec<PropertyChange<V>>)
        ensures
            change_views(r@) == self@,
    {
        self.changes
    }

    /// How many properties changed.
    pub fn len(&self) -> (r: usize)
        ensures
            r == self@.len(),
    {
        self.changes.len()
    }

    /// The changes that left a property with another value than before, in
    /// order; `same` tells whether two values are equal.
    pub fn into_changed<F: Fn(&V, &V) -> bool>(self, same: F) -> (r: Vec<PropertyChange<V>>)
        requires
            forall|a: &V, b: &V| #[trigger] same.requires((a, b)),
        ensures
            forall|equal: spec_fn(V, V) -> bool|
                #[trigger] answers_same(same, equal) ==> change_views(r@) == changed_only(
                    self@,
                    equal,
                ),
    {
        let ghost all = self@;
        let mut kept: Vec<PropertyChange<V>> = Vec::new();
        let mut rest = self.changes;
        let mut i: usize = 0;
        let n = rest.len();
        assert(all.take(0) =~= Seq::<(Seq<char>, V, V)>::empty());
        while rest.len() > 0
            invariant
                forall|a: &V, b: &V| #[trigger] same.requires((a, b)),
                i + rest.len() == n,
                n == all.len(),
                change_views(rest@) == all.skip(i as int),
                forall|equal: spec_fn(V, V) -> bool|
                    #[trigger] answers_same(same, equal) ==> change_views(kept@) == changed_only(
                        all.take(i as int),
                        equal,
                    ),
            decreases rest.len(),
        {
            let ghost old_rest = rest@;
            let change = rest.remove(0);
            assert(all.skip(i as int)[0] == (change.name@, change.old_value, change.new_value));
            assert(change_views(rest@) =~= change_views(old_rest).subrange(1, old_rest.len() as int));
            assert(change_views(old_rest).subrange(1, old_rest.len() as int) =~= all.skip(i + 1));
            assert(all.take(i + 1).drop_last() =~= all.take(i as int));
            assert(all.take(i + 1).last() == all[i as int]);
            let ghost before = kept@;
            let unchanged = same(&change.old_value, &change.new_value);
            if !unchanged {
                kept.push(change);
                assert(change_views(kept@) =~= change_views(before).push(all[i as int]));
            }
            i = i + 1;
        }
        assert(all.take(n as int) =~= all);
        kept
    }
}

/// `equal` gives what `f` answers for every two values.
pub open spec fn answers_same<V, F: Fn(&V, &V) -> bool>(f: F, equal: spec_fn(V, V) -> bool) -> bool {
    forall|a: &V, b: &V, r: bool| #[trigger] f.ensures((a, b), r) ==> r == equal(*a, *b)
}

/// The changes whose value after differs from the value before, in order.
pub open spec fn changed_only<V>(changes: Seq<(Seq<char>, V, V)>, equal: spec_fn(V, V) -> bool) -> Seq<
    (Seq<char>, V, V),
>
    decreases changes.len(),
{
    if changes.len() == 0 {
        Seq::empty()
    } else {
        let rest = changed_only(changes.drop_last(), equal);
        if equal(changes.last().1, changes.last().2) {
            rest
        } else {
            rest.push(changes.last())
        }
    }
}

/// Whether the inspector must rebuild its editors from the object after an
/// edit, rather than only refresh them: the edit did not come from an
/// editor, or the value the editor sent was clamped, or another property
/// than the edited one changed with it.
pub open spec fn needs_sync_of(from_editor: bool, value_was_clamped: bool, changed: Seq<Seq<char>>, name: Seq<char>) -> bool {
    !from_editor || value_was_clamped || exists|i: int| 0 <= i < changed.len() && #[trigger] changed[i] != name
}

/// Whether the inspector must rebuild its editors after an edit of `name`,
/// given the names of the properties that the edit changed.
pub fn needs_sync(from_editor: bool, value_was_clamped: bool, changed: &Vec<String>, name: &str) -> (r: bool)
    ensures
        r == needs_sync_of(from_editor, value_was_clamped, changed@.map_values(|s: String| s@), name@),
{
    let ghost names = changed@.map_values(|s: String| s@);
    if !from_editor || value_was_clamped {
        return true;
    }
    let mut i: usize = 0;
    while i < changed.len()
        invariant
            i <= changed.len(),
            names == changed@.map_values(|s: String| s@),
            forall|j: int| 0 <= j < i ==> #[trigger] names[j] == name@,
        decreases changed.len() - i,
    {
        if !str_eq(changed[i].as_str(), name) {
            assert(names[i as int] != name@);
            return true;
        }
        i = i + 1;
    }
    false
}

/// Two changes of a property that had not changed before leave one change,
/// from the value before the first to the value after the second.
pub proof fn lemma_changes_merge<V>(
    changes: Seq<(Seq<char>, V, V)>,
    name: Seq<char>,
    old1: V,
    new1: V,
    old2: V,
    new2: V,
)
    requires
        names_distinct(changes),
        index_of_name(changes, name) is None,
    ensures
        record_change(record_change(changes, name, old1, new1), name, old2, new2) == changes.push(
            (name, old1, new2),
        ),
{
    let once = changes.push((name, old1, new1));
    assert(record_change(changes, name, old1, new1) == once);
    let n = changes.len() as int;
    assert(once[n].0 == name);
    assert(index_of_name(once, name) == Some(n)) by {
        let k = choose|k: int| 0 <= k < once.len() && (#[trigger] once[k]).0 == name;
        if k != n {
            assert(changes[k] == once[k]);
        }
    }
    assert(once.update(n, (name, once[n].1, new2)) =~= changes.push((name, old1, new2)));
}

/// A property that had not changed, set to another value and then back,
/// leaves nothing to commit: its change runs from its first value to the
/// same value.
pub proof fn lemma_change_set_back_is_not_committed<V>(
    changes: Seq<(Seq<char>, V, V)>,
    name: Seq<char>,
    first: V,
    other: V,
    equal: spec_fn(V, V) -> bool,
)
    requires
        names_distinct(changes),
        index_of_name(changes, name) is None,
        equal(first, first),
    ensures
        changed_only(
            record_change(record_change(changes, name, first, other), name, other, first),
            equal,
        ) == changed_only(changes, equal),
{
    lemma_changes_merge(changes, name, first, other, other, first);
    let both = changes.push((name, first, first));
    assert(both.drop_last() =~= changes);
}

} // verus!
