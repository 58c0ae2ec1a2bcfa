//! The two-pass discipline of a region assignment.
//!
//! A floor planner may run the assignment of a region twice: once only to learn
//! the region's shape, and once more to lay the cells out. The circuit does its
//! work on the laying-out run alone, so it has to tell the two apart.

use vstd::prelude::*;

verus! {

/// What the assignment of the region does on one run.
#[derive(Clone, Copy, Debug, PartialEq, Eq, Structural)]
pub enum PassAction {
    /// Leave at once, successfully, without touching the region.
    Skip,
    /// Assign the region's cells and report the rows used.
    Assign,
}

/// Tells the shape-finding run of a region's assignment from the runs after it.
pub struct RegionPass {
    /// Whether the next run is the shape-finding one.
    pub first_pass: bool,
}

impl RegionPass {
    /// What the next run does.
    pub open spec fn action(self) -> PassAction {
        if self.first_pass {
            PassAction::Skip
        } else {
            PassAction::Assign
        }
    }

    /// The state after one more run: whatever it was, the shape-finding run is
    /// over.
    pub open spec fn entered(self) -> RegionPass {
        RegionPass { first_pass: false }
    }

    /// The state after `n` runs.
    pub open spec fn after(self, n: nat) -> RegionPass
        decreases n,
    {
        if n == 0 {
            self
        } else {
            self.after((n - 1) as nat).entered()
        }
    }

    /// The action of run number `n`, counted from zero.
    pub open spec fn action_at(self, n: nat) -> PassAction {
        self.after(n).action()
    }

    /// A pass before its first run. `first_pass` says whether the floor planner
    /// in use opens with a shape-finding run.
    pub fn new(first_pass: bool) -> (pass: RegionPass)
        ensures
            pass.first_pass == first_pass,
    {
        RegionPass { first_pass }
    }

    /// Enters one run of the region's assignment and says what it is to do:
    /// the shape-finding run is skipped, every other run assigns.
    pub fn enter(&mut self) -> (action: PassAction)
        ensures
            action == old(self).action(),
            *final(self) == old(self).entered(),
    {
        if self.first_pass {
            self.first_pass = false;
            PassAction::Skip
        } else {
            PassAction::Assign
        }
    }
}

/// The opening run is skipped exactly when it is the shape-finding one.
pub proof fn lemma_opening_run(pass: RegionPass)
    ensures
        pass.action_at(0) == PassAction::Skip <==> pass.first_pass,
{
}

/// No run but the opening one is ever skipped.
pub proof fn lemma_later_runs_assign(pass: RegionPass, n: nat)
    requires
        n >= 1,
    ensures
        pass.action_at(n) == PassAction::Assign,
{
}

} // verus!
