//! State shared with the equalizer control surface.

use vstd::prelude::*;

verus! {

/// Whether the control surface is currently tracking pointer movement.
#[derive(Clone, Copy, Debug, PartialEq, Eq, Structural)]
pub enum ControlStatus {
    Active,
    Inactive,
}

impl ControlStatus {
    /// True exactly when the control is being dragged.
    pub fn is_active(self) -> (r: bool)
        ensures
            r <==> self is Active,
    {
        match self {
            ControlStatus::Active => true,
            ControlStatus::Inactive => false,
        }
    }
}

impl Default for ControlStatus {
    /// A control starts out untouched.
    fn default() -> (r: ControlStatus)
        ensures
            r is Inactive,
    {
        ControlStatus::Inactive
    }
}

} // verus!
