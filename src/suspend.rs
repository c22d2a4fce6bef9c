use vstd::prelude::*;

verus! {

/// One observer's view of the suspend signal: tracks whether a suspend has
/// been seen and reports when the matching resume arrives.
#[derive(Debug, Clone, Copy, PartialEq, Eq, Structural)]
pub struct SuspendWatch {
    pub suspended: bool,
}

/// Whether a signal ends a suspend and resume cycle: a resume that follows a
/// suspend.
pub open spec fn completes_cycle(prev_suspended: bool, event: bool) -> bool {
    prev_suspended && !event
}

impl SuspendWatch {
    /// A watch that has seen no suspend yet.
    pub fn new() -> (r: SuspendWatch)
        ensures
            !r.suspended,
    {
        SuspendWatch { suspended: false }
    }

    /// Takes one signal (`true` for suspend, `false` for resume) and returns
    /// whether it completes a suspend and resume cycle. A resume without a
    /// suspend before it completes nothing.
    pub fn observe(&mut self, suspended: bool) -> (r: bool)
        ensures
            r == completes_cycle(old(self).suspended, suspended),
            final(self).suspended == suspended,
    {
        let done = self.suspended && !suspended;
        self.suspended = suspended;
        done
    }
}

} // verus!
