//! The view description of the in-match objective HUD: the current objective's label, its
//! lifecycle state, and an optional `(current, goal)` progress pair.
use vstd::prelude::*;

use crate::codec::{decimal, decimal_string};

verus! {

/// How the current objective reads: drives the objective line's tint.
#[derive(Clone, Copy, Debug, PartialEq, Eq, Structural)]
pub enum ObjectiveStateView {
    /// Still in progress.
    Active,
    /// Achieved.
    Completed,
    /// Failed.
    Failed,
}

/// The presentation description of the objective HUD. An empty `objective` draws nothing.
#[derive(Clone, Debug, Default, PartialEq)]
pub struct ObjectiveHudView {
    /// The current objective's short label. Empty means draw nothing.
    pub objective: String,
    /// Its lifecycle state, tinting the line. `None` for an empty view.
    pub state: Option<ObjectiveStateView>,
    /// Optional progress `(current, goal)`. `None` or a zero goal is a binary objective with no
    /// numeric row.
    pub progress: Option<(u32, u32)>,
}

/// Whether the view shows a numeric progress row: a progress pair with a positive goal.
pub open spec fn shows_progress(progress: Option<(u32, u32)>) -> bool {
    match progress {
        Some((_, goal)) => goal > 0,
        None => false,
    }
}

impl ObjectiveHudView {
    /// True when there is no active objective worth drawing.
    pub fn is_empty(&self) -> (r: bool)
        ensures
            r == (self.objective@.len() == 0),
    {
        self.objective.as_str().is_empty()
    }

    /// How many body rows the view lays out: the objective line, plus the progress line when
    /// one is shown.
    pub fn n_rows(&self) -> (r: usize)
        ensures
            r == (if shows_progress(self.progress) { 2usize } else { 1usize }),
    {
        match self.progress {
            Some((_, goal)) => if goal > 0 {
                2
            } else {
                1
            },
            None => 1,
        }
    }

    /// The text of the progress row, `"current / goal"` in decimal, when one is shown.
    pub fn progress_text(&self) -> (r: Option<String>)
        ensures
            match self.progress {
                Some((current, goal)) => if goal > 0 {
                    r is Some && r->0@ == decimal(current as nat) + " / "@ + decimal(goal as nat)
                } else {
                    r is None
                },
                None => r is None,
            },
    {
        match self.progress {
            Some((current, goal)) => {
                if goal > 0 {
                    let mut s = decimal_string(current as u64);
                    s.append(" / ");
                    let g = decimal_string(goal as u64);
                    s.append(g.as_str());
                    Some(s)
                } else {
                    None
                }
            },
            None => None,
        }
    }
}

} // verus!
