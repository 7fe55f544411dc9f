//! What every workflow has in common.
//!
//! A workflow is a tool the menu opens: it owns its state, it is handed one
//! [`Action`](crate::action::Action) at a time, and it says what that did. What
//! the workflows share is the answer they hand back, which is here so both mean
//! the same thing by it.

use vstd::prelude::*;

verus! {

/// What an action did to a workflow, for the application to act on.
#[derive(Clone, Copy, PartialEq, Eq, Debug, Structural)]
pub enum Outcome {
    /// Nothing changed; the screen does not need drawing again.
    Unchanged,
    Redraw,
    /// `Back` with nothing left to take back: the user left the workflow.
    Exit,
}

} // verus!
