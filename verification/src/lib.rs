//! An undo/redo history container, generic over the snapshot type.
//!
//! [`EditStack`] keeps two ordered histories of earlier states, one to move
//! back through and one to move forward through. The state that is current
//! stays with the caller, who lends it to [`EditStack::undo`] and
//! [`EditStack::redo`] for an exchange with a stored state.

pub mod edit_stack;
pub mod model;

pub use edit_stack::EditStack;
pub use model::EditStackView;
