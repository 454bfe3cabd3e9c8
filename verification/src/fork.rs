//! Telling the two branches of a duplicated process apart.

use vstd::prelude::*;

verus! {

/// The branch in which a process finds itself after a duplication.
#[derive(Clone, Copy, Debug, PartialEq, Eq, Structural)]
pub enum ForkReturn {
    /// The calling process, with the identifier of its new child.
    Parent(libc::pid_t),
    /// The new process.
    Child,
}

impl ForkReturn {
    /// The branch that a successful duplication's return value names: zero is
    /// seen by the child, the child's identifier by the parent.
    pub open spec fn of_raw(res: i32) -> ForkReturn {
        if res == 0 {
            ForkReturn::Child
        } else {
            ForkReturn::Parent(res)
        }
    }

    /// True of the child branch, and of a parent branch that holds a valid
    /// process identifier.
    pub open spec fn well_formed(self) -> bool {
        self matches ForkReturn::Parent(pid) ==> pid > 0
    }

    /// Interprets the return value of a duplication that succeeded. A
    /// negative value reports a failed duplication, after which there is
    /// nothing to continue with: the caller aborts instead of asking.
    pub fn from_raw(res: libc::pid_t) -> (branch: ForkReturn)
        requires
            res >= 0,
        ensures
            branch == ForkReturn::of_raw(res),
            branch.well_formed(),
    {
        if res == 0 {
            ForkReturn::Child
        } else {
            ForkReturn::Parent(res)
        }
    }
}

} // verus!
