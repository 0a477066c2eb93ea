use vstd::prelude::*;
use crate::view_mode::{other_mode, ViewMode};

verus! {

/// What a press of one of the panel's buttons asks the program to do.
#[derive(Clone, Copy, Debug, PartialEq, Eq, Structural)]
pub enum PressAction {
    /// Open the file dialog on data files, from the current directory.
    OpenDataFileDialog,
    /// Report that Reset was pressed.
    ReportReset,
}

/// What one frame's presses lead to: the actions to perform, in order, and
/// the view mode at the end of the frame.
#[derive(Clone, Debug)]
pub struct PressOutcome {
    pub actions: Vec<PressAction>,
    pub mode: ViewMode,
}

/// The line reported for a press of Reset.
pub fn reset_line() -> (m: &'static str)
    ensures
        m@ == "Press Reset button."@,
{
    "Press Reset button."
}

/// Handles one frame's presses of the panel: `open` presses of Open, then
/// `reset` presses of Reset, then `toggle` presses of the view-mode toggle,
/// starting from `mode`.
pub fn handle_presses(mode: ViewMode, open: usize, reset: usize, toggle: usize) -> (r: PressOutcome)
    requires
        open + reset <= usize::MAX,
    ensures
        r.actions@.len() == open + reset,
        forall|i: int| 0 <= i < open ==> r.actions@[i] == PressAction::OpenDataFileDialog,
        forall|i: int| open <= i < open + reset ==> r.actions@[i] == PressAction::ReportReset,
        r.mode == (if toggle == 0 { mode } else { other_mode(mode) }),
{
    let mut actions: Vec<PressAction> = Vec::new();
    let mut k: usize = 0;
    while k < open
        invariant
            k <= open,
            actions@.len() == k,
            forall|i: int| 0 <= i < k ==> actions@[i] == PressAction::OpenDataFileDialog,
        decreases open - k,
    {
        actions.push(PressAction::OpenDataFileDialog);
        k = k + 1;
    }
    let mut k: usize = 0;
    while k < reset
        invariant
            k <= reset,
            open + reset <= usize::MAX,
            actions@.len() == open + k,
            forall|i: int| 0 <= i < open ==> actions@[i] == PressAction::OpenDataFileDialog,
            forall|i: int| open <= i < open + k ==> actions@[i] == PressAction::ReportReset,
        decreases reset - k,
    {
        actions.push(PressAction::ReportReset);
        k = k + 1;
    }
    PressOutcome { actions, mode: mode.after_presses(toggle) }
}

} // verus!
