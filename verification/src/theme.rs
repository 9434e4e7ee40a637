//! Widget state that the views share.

use vstd::prelude::*;

verus! {

/// Three-valued selection state used by the file-list header checkbox.
#[derive(Debug, Clone, Copy, PartialEq, Eq, Structural)]
pub enum CheckState {
    Checked,
    Unchecked,
    Mixed,
}

/// The state a click on a tri-state checkbox asks for: a mixed or empty box
/// becomes checked, a checked one unchecked.
pub open spec fn next_check_state(s: CheckState) -> CheckState {
    match s {
        CheckState::Mixed => CheckState::Checked,
        CheckState::Checked => CheckState::Unchecked,
        CheckState::Unchecked => CheckState::Checked,
    }
}

impl CheckState {
    /// The state that a click on a tri-state checkbox in this state asks for.
    pub fn toggled(self) -> (r: CheckState)
        ensures
            r == next_check_state(self),
    {
        match self {
            CheckState::Mixed => CheckState::Checked,
            CheckState::Checked => CheckState::Unchecked,
            CheckState::Unchecked => CheckState::Checked,
        }
    }

    /// Whether the box is drawn as (at least partly) checked.
    pub fn is_active(self) -> (b: bool)
        ensures
            b == (self != CheckState::Unchecked),
    {
        match self {
            CheckState::Unchecked => false,
            _ => true,
        }
    }
}

/// A lemma: toggling never yields the mixed state, and toggling twice from
/// a definite state returns to it.
pub proof fn lemma_toggle_round_trip(s: CheckState)
    ensures
        next_check_state(s) != CheckState::Mixed,
        s != CheckState::Mixed ==> next_check_state(next_check_state(s)) == s,
{
}

} // verus!
