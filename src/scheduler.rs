use vstd::prelude::*;

use crate::error::BatchError;

verus! {

/// Most fetches that may be in flight at once.
pub const MAX_CONCURRENT_REQUESTS: usize = 256;

/// The scheduler's next step.
#[derive(Debug, Clone, Copy, PartialEq, Eq, Structural)]
pub enum Action {
    /// Start the fetch of part `i` and append it to the window.
    Admit(usize),
    /// Wait for part `i`, the oldest fetch in the window.
    AwaitOldest(usize),
    /// Every part completed.
    Finished,
    /// A part failed; nothing more is waited for.
    Stopped,
}

/// Sliding-window admission over parts `0..total` in plan order.
///
/// The window holds the fetches that are in flight, oldest first. Parts are
/// admitted in order while the window has room; when it is full, or when
/// every part is admitted, the oldest fetch is awaited, however the others
/// fare. Since admission and retirement both go in plan order, the window is
/// always the parts `retired..admitted`.
pub struct Scheduler {
    total: usize,
    cap: usize,
    admitted: usize,
    retired: usize,
    stopped: bool,
}

/// The step that a scheduler in the given state takes next.
pub open spec fn action_of(total: nat, cap: nat, admitted: nat, retired: nat, stopped: bool) -> Action {
    if stopped {
        Action::Stopped
    } else if admitted < total && admitted - retired < cap {
        Action::Admit(admitted as usize)
    } else if retired < admitted {
        Action::AwaitOldest(retired as usize)
    } else {
        Action::Finished
    }
}

impl Scheduler {
    pub closed spec fn spec_total(&self) -> nat {
        self.total as nat
    }

    pub closed spec fn spec_cap(&self) -> nat {
        self.cap as nat
    }

    /// Parts whose fetch was started.
    pub closed spec fn spec_admitted(&self) -> nat {
        self.admitted as nat
    }

    /// Parts whose fetch was awaited, oldest first.
    pub closed spec fn spec_retired(&self) -> nat {
        self.retired as nat
    }

    /// A failure was observed.
    pub closed spec fn spec_stopped(&self) -> bool {
        self.stopped
    }

    /// Fetches in flight: admitted and not yet awaited.
    pub open spec fn in_flight(&self) -> int {
        self.spec_admitted() - self.spec_retired()
    }

    pub open spec fn wf(&self) -> bool {
        &&& 0 < self.spec_cap()
        &&& self.spec_retired() <= self.spec_admitted() <= self.spec_total()
        &&& self.in_flight() <= self.spec_cap()
    }

    pub open spec fn spec_next_action(&self) -> Action {
        action_of(
            self.spec_total(),
            self.spec_cap(),
            self.spec_admitted(),
            self.spec_retired(),
            self.spec_stopped(),
        )
    }

    /// A scheduler for `total` parts with at most `cap` in flight.
    pub fn new(total: usize, cap: usize) -> (r: Scheduler)
        requires
            cap > 0,
        ensures
            r.wf(),
            r.spec_total() == total,
            r.spec_cap() == cap,
            r.spec_admitted() == 0,
            r.spec_retired() == 0,
            !r.spec_stopped(),
    {
        Scheduler { total, cap, admitted: 0, retired: 0, stopped: false }
    }

    /// Fetches in flight.
    pub fn active(&self) -> (r: usize)
        requires
            self.wf(),
        ensures
            r == self.in_flight(),
    {
        self.admitted - self.retired
    }

    /// Admit the next part while the window has room; otherwise wait for the
    /// oldest fetch; finish once all are awaited; stop after a failure.
    pub fn next_action(&self) -> (r: Action)
        requires
            self.wf(),
        ensures
            r == self.spec_next_action(),
    {
        if self.stopped {
            Action::Stopped
        } else if self.admitted < self.total && self.admitted - self.retired < self.cap {
            Action::Admit(self.admitted)
        } else if self.retired < self.admitted {
            Action::AwaitOldest(self.retired)
        } else {
            Action::Finished
        }
    }

    /// Records that the part named by `Action::Admit` was started.
    pub fn record_admitted(&mut self)
        requires
            old(self).wf(),
            old(self).spec_next_action() is Admit,
        ensures
            final(self).wf(),
            final(self).spec_total() == old(self).spec_total(),
            final(self).spec_cap() == old(self).spec_cap(),
            final(self).spec_admitted() == old(self).spec_admitted() + 1,
            final(self).spec_retired() == old(self).spec_retired(),
            final(self).spec_stopped() == old(self).spec_stopped(),
    {
        self.admitted = self.admitted + 1;
    }

    /// Records the outcome of the oldest fetch, named by `Action::AwaitOldest`,
    /// and hands it on: a failure stops the batch.
    pub fn record_completed(&mut self, outcome: Result<(), BatchError>) -> (r: Result<(), BatchError>)
        requires
            old(self).wf(),
            old(self).spec_next_action() is AwaitOldest,
        ensures
            r == outcome,
            final(self).wf(),
            final(self).spec_total() == old(self).spec_total(),
            final(self).spec_cap() == old(self).spec_cap(),
            final(self).spec_admitted() == old(self).spec_admitted(),
            final(self).spec_retired() == old(self).spec_retired() + 1,
            final(self).spec_stopped() == outcome is Err,
    {
        self.retired = self.retired + 1;
        self.stopped = outcome.is_err();
        outcome
    }
}

/// However a scheduler is driven, it never has more fetches in flight than
/// its cap, and it admits only while it has room.
pub proof fn lemma_window_bounded(s: Scheduler)
    requires
        s.wf(),
    ensures
        0 <= s.in_flight() <= s.spec_cap(),
        s.spec_next_action() is Admit ==> s.in_flight() < s.spec_cap(),
{
}

/// The window is served in plan order: the part admitted next is the first
/// not yet admitted, and the part awaited next is the oldest in flight.
pub proof fn lemma_fifo_order(s: Scheduler)
    requires
        s.wf(),
    ensures
        s.spec_next_action() is Admit ==> s.spec_next_action()->Admit_0 == s.spec_admitted(),
        s.spec_next_action() is AwaitOldest ==> s.spec_next_action()->AwaitOldest_0
            == s.spec_retired() && s.in_flight() > 0,
        s.spec_next_action() is Finished ==> s.spec_retired() == s.spec_total(),
{
}

} // verus!
