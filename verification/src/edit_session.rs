//! When an edit in the inspector continues the previous one, so that both go
//! into one undo action.

use vstd::prelude::*;
use vstd::string::*;

use crate::text::{str_eq, string_of};

verus! {

/// The engine merges actions that follow each other within this many
/// milliseconds; the session must end with the same window.
pub const MERGE_WINDOW_MS: u64 = 800;

/// The edit that a session follows: the object (by instance id), the
/// property, and the history version that the next edit must find.
pub struct EditSession {
    pub object: u64,
    pub name: String,
    pub next_version: u64,
}

impl EditSession {
    /// A session that begins with an edit of `name` on `object` at history
    /// `version`.
    pub fn begin(object: u64, name: &str, version: u64) -> (r: Self)
        requires
            version < u64::MAX,
        ensures
            r.object == object,
            r.name@ == name@,
            r.next_version == version + 1,
    {
        EditSession { object, name: string_of(name), next_version: version + 1 }
    }

    /// Whether an edit of `name` on `object`, at history `version` and
    /// `elapsed_ms` after the session's last edit, continues the session.
    pub fn continues(&self, object: u64, name: &str, version: u64, elapsed_ms: u64) -> (r: bool)
        ensures
            r == (self.object == object && self.name@ == name@ && elapsed_ms < MERGE_WINDOW_MS
                && self.next_version == version),
    {
        self.object == object && str_eq(self.name.as_str(), name) && elapsed_ms < MERGE_WINDOW_MS
            && self.next_version == version
    }

    /// Records an edit that continues the session, at history `version`.
    pub fn advance(&mut self, version: u64)
        ensures
            final(self).object == old(self).object,
            final(self).name@ == old(self).name@,
            final(self).next_version == version,
    {
        self.next_version = version;
    }
}

/// Whether the session in `slot` goes on with this edit; if not, the slot is
/// emptied (and a new session begins).
pub fn resume(slot: &mut Option<EditSession>, object: u64, name: &str, version: u64, elapsed_ms: u64) -> (r: bool)
    requires
        version < u64::MAX,
    ensures
        r == (*old(slot) matches Some(s) && s.continues_spec(object, name@, version, elapsed_ms)),
        r ==> (*old(slot) matches Some(s) && s.object == object && s.name@ == name@ && s.next_version
            == version && elapsed_ms < MERGE_WINDOW_MS),
        r ==> (*final(slot) matches Some(s) && s.object == object && s.name@ == name@ && s.next_version == version),
        !r ==> (*final(slot) matches Some(s) && s.object == object && s.name@ == name@ && s.next_version == version + 1),
{
    let continued = match slot {
        Some(session) => session.continues(object, name, version, elapsed_ms),
        None => false,
    };
    if continued {
        match slot {
            Some(session) => session.advance(version),
            None => {},
        }
    } else {
        *slot = Some(EditSession::begin(object, name, version));
    }
    continued
}

/// What the undo history needs to know of one property that an edit of the
/// session changed.
pub struct EditedChange {
    pub name: String,
    /// The value after equals the value before.
    pub unchanged: bool,
    /// The value after differs from the value that the editor asked for (a
    /// validator corrected it).
    pub corrected: bool,
    /// The session holds the value the property had when it began.
    pub has_origin: bool,
}

/// One operation of the merged undo action, on the change at a position.
#[derive(Clone, Copy, Debug, PartialEq, Eq, Structural)]
pub enum UndoStep {
    /// Redo sets the property to its value after the change.
    Do(usize),
    /// Undo sets the property back to its value when the session began.
    UndoToOrigin(usize),
    /// Undo sets the property back to its value before the change.
    UndoToOld(usize),
}

/// The steps for the change at position `i`: the edited property itself gets
/// a redo step only when a validator corrected it (the editor records the
/// rest); another property that changed gets a redo step and an undo step
/// back to its value when the session began, or before the change if the
/// session does not know it.
pub open spec fn steps_for(session_name: Seq<char>, c: EditedChange, i: int) -> Seq<UndoStep> {
    if c.name@ == session_name {
        if c.corrected {
            seq![UndoStep::Do(i as usize)]
        } else {
            Seq::empty()
        }
    } else if c.unchanged {
        Seq::empty()
    } else if c.has_origin {
        seq![UndoStep::Do(i as usize), UndoStep::UndoToOrigin(i as usize)]
    } else {
        seq![UndoStep::Do(i as usize), UndoStep::UndoToOld(i as usize)]
    }
}

/// The steps for all changes, in order.
pub open spec fn undo_plan_of(session_name: Seq<char>, changes: Seq<EditedChange>) -> Seq<UndoStep>
    decreases changes.len(),
{
    if changes.len() == 0 {
        Seq::empty()
    } else {
        undo_plan_of(session_name, changes.drop_last()) + steps_for(
            session_name,
            changes.last(),
            changes.len() - 1,
        )
    }
}

impl EditSession {
    /// The operations that add an edit's changes to the session's merged undo
    /// action, in the order of the changes.
    pub fn undo_plan(&self, changes: &Vec<EditedChange>) -> (r: Vec<UndoStep>)
        ensures
            r@ == undo_plan_of(self.name@, changes@),
    {
        let mut steps: Vec<UndoStep> = Vec::new();
        let mut i: usize = 0;
        assert(changes@.take(0) =~= Seq::<EditedChange>::empty());
        while i < changes.len()
            invariant
                i <= changes.len(),
                steps@ == undo_plan_of(self.name@, changes@.take(i as int)),
            decreases changes.len() - i,
        {
            assert(changes@.take(i + 1).drop_last() =~= changes@.take(i as int));
            assert(changes@.take(i + 1).last() == changes@[i as int]);
            let ghost before = steps@;
            let c = &changes[i];
            if str_eq(c.name.as_str(), self.name.as_str()) {
                if c.corrected {
                    steps.push(UndoStep::Do(i));
                }
            } else if !c.unchanged {
                steps.push(UndoStep::Do(i));
                if c.has_origin {
                    steps.push(UndoStep::UndoToOrigin(i));
                } else {
                    steps.push(UndoStep::UndoToOld(i));
                }
            }
            assert(steps@ =~= before + steps_for(self.name@, changes@[i as int], i as int));
            i = i + 1;
        }
        assert(changes@.take(changes.len() as int) =~= changes@);
        steps
    }
}

impl EditSession {
    /// Whether an edit continues the session.
    pub open spec fn continues_spec(&self, object: u64, name: Seq<char>, version: u64, elapsed_ms: u64) -> bool {
        self.object == object && self.name@ == name && elapsed_ms < MERGE_WINDOW_MS && self.next_version
            == version
    }
}

/// An edit continues a session only on the same object and property,
/// within the merge window, and when the history is at the version that the
/// session's last edit left it at: when any other action entered the history
/// in between (the version moved on), or the window passed, or the edit is of
/// another object or property, a new session begins.
pub proof fn lemma_continuing_needs_an_untouched_history(
    session: EditSession,
    object: u64,
    name: Seq<char>,
    version: u64,
    elapsed_ms: u64,
)
    ensures
        session.continues_spec(object, name, version, elapsed_ms) <==> (session.object == object
            && session.name@ == name && elapsed_ms < 800 && session.next_version == version),
        session.next_version != version ==> !session.continues_spec(object, name, version, elapsed_ms),
        elapsed_ms >= 800 ==> !session.continues_spec(object, name, version, elapsed_ms),
{
}

/// Two edits in a row: after an edit at history version `v` (a session then
/// expects version `v + 1`), an edit of the same property found at any other
/// version than `v + 1` does not continue the session.
pub proof fn lemma_an_action_between_edits_splits_them(
    object: u64,
    name: Seq<char>,
    v: u64,
    w: u64,
    elapsed_ms: u64,
    session: EditSession,
)
    requires
        session.object == object,
        session.name@ == name,
        session.next_version == v + 1,
        w != v + 1,
    ensures
        !session.continues_spec(object, name, w, elapsed_ms),
{
}

} // verus!
