//! The state that every request shares.

use vstd::prelude::*;

verus! {

/// The page-view counter. It starts at zero, only ever grows, and grows by
/// one for each page that is rendered. Callers that share it between tasks
/// keep it behind one lock.
pub struct AppState {
    pub view_count: u64,
}

/// The counter after `n` further views.
pub open spec fn after_views(start: nat, n: nat) -> nat
    decreases n,
{
    if n == 0 {
        start
    } else {
        after_views(start, (n - 1) as nat) + 1
    }
}

impl AppState {
    /// The state of a process that has rendered nothing yet.
    pub fn new() -> (state: AppState)
        ensures
            state.view_count == 0,
    {
        AppState { view_count: 0 }
    }

    /// Counts one view and returns the new count.
    pub fn count_view(&mut self) -> (n: u64)
        requires
            old(self).view_count < u64::MAX,
        ensures
            final(self).view_count == old(self).view_count + 1,
            final(self).view_count == after_views(old(self).view_count as nat, 1),
            n == final(self).view_count,
    {
        assert(after_views(self.view_count as nat, 1) == after_views(self.view_count as nat, 0)
            + 1);
        self.view_count = self.view_count + 1;
        self.view_count
    }
}

/// `n` views, one after the other, move the counter from `start` to exactly
/// `start + n`: none is lost and the count never falls.
pub proof fn views_accumulate(start: nat, n: nat)
    ensures
        after_views(start, n) == start + n,
        after_views(start, n) >= start,
    decreases n,
{
    if n > 0 {
        views_accumulate(start, (n - 1) as nat);
    }
}

} // verus!
