//! The executable history container.

use vstd::prelude::*;
use crate::model::EditStackView;

verus! {

/// A list of pending undos and a list of pending redos.
///
/// The stack does not track the active state: the caller holds it, and hands
/// it over only for the exchange that `undo` and `redo` make. This keeps the
/// number of clones of a snapshot down.
#[derive(Debug, PartialEq, Eq)]
pub struct EditStack<T> {
    undo_list: Vec<T>,
    redo_list: Vec<T>,
}

impl<T> View for EditStack<T> {
    type V = EditStackView<T>;

    closed spec fn view(&self) -> EditStackView<T> {
        EditStackView { undo_list: self.undo_list@, redo_list: self.redo_list@ }
    }
}

impl<T> EditStack<T> {
    /// Creates a stack with no history in either direction.
    pub fn new() -> (stack: Self)
        where T: Default,
        ensures
            stack@ == EditStackView::<T>::empty(),
    {
        EditStack { undo_list: Vec::new(), redo_list: Vec::new() }
    }

    /// The states that `undo` can go back to, from the oldest to the most
    /// recent.
    pub fn undo_list(&self) -> (states: &[T])
        ensures
            states@ == self@.undo_list,
    {
        self.undo_list.as_slice()
    }

    /// The states that `redo` can go forward to, from the oldest to the most
    /// recent.
    pub fn redo_list(&self) -> (states: &[T])
        ensures
            states@ == self@.redo_list,
    {
        self.redo_list.as_slice()
    }
}

impl<T> EditStack<T> where T: Default + Clone + Send {
    /// Goes back one point in the history. With nothing to undo, does nothing.
    ///
    /// Where an undo is possible, `current_state` is updated in place: it takes
    /// the most recent undo state, and the state that it held becomes the most
    /// recent redo state. The two are exchanged, neither is cloned.
    pub fn undo(&mut self, current_state: &mut T)
        ensures
            (final(self)@, *final(current_state)) == old(self)@.undo(*old(current_state)),
            !old(self)@.can_undo() ==> {
                &&& *final(current_state) == *old(current_state)
                &&& final(self)@ == old(self)@
            },
            old(self)@.can_undo() ==> {
                &&& *final(current_state) == old(self)@.undo_list.last()
                &&& final(self)@.undo_list == old(self)@.undo_list.drop_last()
                &&& final(self)@.redo_list == old(self)@.redo_list.push(*old(current_state))
            },
    {
        if let Some(prev_state) = self.undo_list.pop() {
            let mut held = prev_state;
            core::mem::swap(current_state, &mut held);
            self.redo_list.push(held);
        }
    }

    /// Goes forward one point in the history. With nothing to redo, does
    /// nothing.
    ///
    /// Where a redo is possible, `current_state` is updated in place: it takes
    /// the most recent redo state, and the state that it held becomes the most
    /// recent undo state.
    pub fn redo(&mut self, current_state: &mut T)
        ensures
            (final(self)@, *final(current_state)) == old(self)@.redo(*old(current_state)),
            !old(self)@.can_redo() ==> {
                &&& *final(current_state) == *old(current_state)
                &&& final(self)@ == old(self)@
            },
            old(self)@.can_redo() ==> {
                &&& *final(current_state) == old(self)@.redo_list.last()
                &&& final(self)@.redo_list == old(self)@.redo_list.drop_last()
                &&& final(self)@.undo_list == old(self)@.undo_list.push(*old(current_state))
            },
    {
        if let Some(next_state) = self.redo_list.pop() {
            let mut held = next_state;
            core::mem::swap(current_state, &mut held);
            self.undo_list.push(held);
        }
    }

    /// Records `current_state` as the most recent undo state.
    ///
    /// Whatever could be redone is discarded: after a new edit the states that
    /// earlier undos left behind can no longer be reached.
    pub fn insert(&mut self, current_state: T)
        ensures
            final(self)@ == old(self)@.insert(current_state),
            final(self)@.undo_list == old(self)@.undo_list.push(current_state),
            final(self)@.undo_list.last() == current_state,
            final(self)@.undo_list.drop_last() == old(self)@.undo_list,
            final(self)@.redo_list.len() == 0,
    {
        self.undo_list.push(current_state);
        self.redo_list.clear();
    }

    /// Resets the stack to the state in which it was created.
    pub fn reset(&mut self)
        ensures
            final(self)@ == old(self)@.reset(),
            final(self)@ == EditStackView::<T>::empty(),
            final(self)@.undo_list.len() == 0,
            final(self)@.redo_list.len() == 0,
    {
        self.undo_list.clear();
        self.redo_list.clear();
    }
}

} // verus!
