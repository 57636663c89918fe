//! The one piece of client-side state with behaviour of its own: the
//! action buttons are disabled while a run or share call is in flight,
//! and re-enabled when it settles. The rendering around it lives outside
//! the crate.

use vstd::prelude::*;

verus! {

/// Whether the action buttons accept clicks.
#[derive(Debug, Clone, Copy, PartialEq, Eq, Structural)]
pub enum ActionButtonState {
    Enabled,
    Disabled,
}

/// The reducible store of the action-button state: dispatching a state
/// replaces the current one.
#[derive(Debug, Clone, Copy, PartialEq, Eq, Structural)]
pub struct ActionButtonStateReducible {
    pub state: ActionButtonState,
}

impl ActionButtonStateReducible {
    pub fn new(state: ActionButtonState) -> (r: ActionButtonStateReducible)
        ensures
            r.state == state,
    {
        ActionButtonStateReducible { state }
    }

    /// Whether clicks are currently refused.
    pub fn disabled(&self) -> (r: bool)
        ensures
            r == (self.state == ActionButtonState::Disabled),
    {
        matches!(self.state, ActionButtonState::Disabled)
    }

    /// A dispatched action replaces the state outright.
    pub fn reduce(self, action: ActionButtonState) -> (r: ActionButtonStateReducible)
        ensures
            r.state == action,
    {
        ActionButtonStateReducible { state: action }
    }
}

/// The navigation query of the editor page: a shared-paste identifier to
/// load, or inline code to open with.
#[derive(Debug, PartialEq, Eq)]
pub struct Query {
    pub shared: Option<String>,
    pub code: Option<String>,
}

} // verus!
