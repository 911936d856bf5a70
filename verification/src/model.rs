//! The mathematical model of an edit stack and the laws that hold of it.

use vstd::prelude::*;

verus! {

/// What an edit stack holds, as two sequences that run from the oldest state
/// (index 0) to the most recent one (the last index).
#[verifier::ext_equal]
pub struct EditStackView<T> {
    /// The states that can be reached by moving backward.
    pub undo_list: Seq<T>,
    /// The states that can be reached by moving forward.
    pub redo_list: Seq<T>,
}

impl<T> EditStackView<T> {
    /// The history that holds no state in either direction.
    pub open spec fn empty() -> Self {
        EditStackView { undo_list: Seq::empty(), redo_list: Seq::empty() }
    }

    /// Whether there is a state to go back to.
    pub open spec fn can_undo(self) -> bool {
        self.undo_list.len() > 0
    }

    /// Whether there is a state to go forward to.
    pub open spec fn can_redo(self) -> bool {
        self.redo_list.len() > 0
    }

    /// One step back from `current`: the history after the step, and the state
    /// that is current after it.
    ///
    /// The most recent undo state becomes current and `current` becomes the
    /// most recent redo state. With nothing to undo, nothing changes.
    pub open spec fn undo(self, current: T) -> (Self, T) {
        if self.can_undo() {
            (
                EditStackView {
                    undo_list: self.undo_list.drop_last(),
                    redo_list: self.redo_list.push(current),
                },
                self.undo_list.last(),
            )
        } else {
            (self, current)
        }
    }

    /// One step forward from `current`: the history after the step, and the
    /// state that is current after it.
    ///
    /// The most recent redo state becomes current and `current` becomes the
    /// most recent undo state. With nothing to redo, nothing changes.
    pub open spec fn redo(self, current: T) -> (Self, T) {
        if self.can_redo() {
            (
                EditStackView {
                    undo_list: self.undo_list.push(current),
                    redo_list: self.redo_list.drop_last(),
                },
                self.redo_list.last(),
            )
        } else {
            (self, current)
        }
    }

    /// The history after `state` was recorded: it is the most recent undo
    /// state, and no redo state is left.
    pub open spec fn insert(self, state: T) -> Self {
        EditStackView { undo_list: self.undo_list.push(state), redo_list: Seq::empty() }
    }

    /// The history after it was discarded.
    pub open spec fn reset(self) -> Self {
        Self::empty()
    }

    /// Every state that the history and the caller hold, in the order in which
    /// a run of redos would make them current one after the other: the undo
    /// states, then `current`, then the redo states from the most recent one
    /// down to the oldest.
    pub open spec fn timeline(self, current: T) -> Seq<T> {
        self.undo_list.push(current) + self.redo_list.reverse()
    }
}

/// An undo that is followed by a redo brings back the history and the current
/// state that were there before the two.
///
/// This holds whenever the undo takes effect, and also where neither step
/// does. (With nothing to undo but something to redo, the undo changes
/// nothing and the redo moves forward.)
pub proof fn lemma_undo_then_redo<T>(stack: EditStackView<T>, current: T)
    requires
        stack.can_undo() || !stack.can_redo(),
    ensures
        stack.undo(current).0.redo(stack.undo(current).1) == (stack, current),
{
    let (back, prev) = stack.undo(current);
    if stack.can_undo() {
        assert(back.redo_list.drop_last() =~= stack.redo_list);
        assert(back.undo_list.push(prev) =~= stack.undo_list);
        assert(back.redo(prev).0 =~= stack);
    }
}

/// A redo that is followed by an undo brings back the history and the current
/// state that were there before the two.
///
/// This holds whenever the redo takes effect, and also where neither step
/// does.
pub proof fn lemma_redo_then_undo<T>(stack: EditStackView<T>, current: T)
    requires
        stack.can_redo() || !stack.can_undo(),
    ensures
        stack.redo(current).0.undo(stack.redo(current).1) == (stack, current),
{
    let (forth, next) = stack.redo(current);
    if stack.can_redo() {
        assert(forth.undo_list.drop_last() =~= stack.undo_list);
        assert(forth.redo_list.push(next) =~= stack.redo_list);
        assert(forth.undo(next).0 =~= stack);
    }
}

/// Undo and redo only move along the timeline: they neither add a state to
/// it, nor drop one, nor change the order of two.
pub proof fn lemma_steps_keep_timeline<T>(stack: EditStackView<T>, current: T)
    ensures
        stack.undo(current).0.timeline(stack.undo(current).1) == stack.timeline(current),
        stack.redo(current).0.timeline(stack.redo(current).1) == stack.timeline(current),
{
    if stack.can_undo() {
        let (back, prev) = stack.undo(current);
        assert(back.redo_list.reverse() =~= seq![current] + stack.redo_list.reverse());
        assert(back.timeline(prev) =~= stack.timeline(current));
    }
    if stack.can_redo() {
        let (forth, next) = stack.redo(current);
        assert(stack.redo_list.reverse() =~= seq![next] + forth.redo_list.reverse());
        assert(forth.timeline(next) =~= stack.timeline(current));
    }
}

/// Only an undo puts a state on the redo list. A redo takes one off it or
/// leaves it alone, and it is empty in a new history, after a state was
/// recorded, and after the history was discarded.
pub proof fn lemma_only_undo_fills_redo_list<T>(stack: EditStackView<T>, current: T, state: T)
    ensures
        stack.redo(current).0.redo_list.len() <= stack.redo_list.len(),
        !stack.insert(state).can_redo(),
        !stack.reset().can_redo(),
        !EditStackView::<T>::empty().can_redo(),
{
}

} // verus!
