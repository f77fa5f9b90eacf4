//! Tracking of pending recovery actions keyed by small integer handles.

use vstd::prelude::*;

verus! {

/// Which recovery action a scheduled retry should perform.
#[derive(Debug, Clone, Copy, PartialEq, Eq)]
pub enum FailState {
    /// Authentication must be attempted again.
    Login,
}

/// The pending recovery actions, a slot table keyed by small integers.
///
/// A handle is meaningful only between being issued by `schedule` and being
/// removed by `fire`.  A numeric value freed by `fire` may be issued again
/// later; that is not a collision with the entry that was already removed.
pub struct RetryScheduler {
    slots: Vec<Option<FailState>>,
}

impl RetryScheduler {
    /// Whether `handle` names a currently-pending entry.
    pub closed spec fn is_pending(&self, handle: int) -> bool {
        0 <= handle < self.slots@.len() && self.slots@[handle] is Some
    }

    /// The recovery action recorded under a pending handle.
    pub closed spec fn pending_state(&self, handle: int) -> FailState
        recommends
            self.is_pending(handle),
    {
        self.slots@[handle]->0
    }

    /// A scheduler with no pending entries.
    pub fn new() -> (r: RetryScheduler)
        ensures
            forall|h: int| !r.is_pending(h),
    {
        RetryScheduler { slots: Vec::new() }
    }

    /// Records `state` under the smallest handle that is not currently
    /// pending and returns that handle.
    ///
    /// The returned handle was not pending before the call — it never
    /// collides with a currently-pending entry — and every other entry is
    /// left as it was.
    pub fn schedule(&mut self, state: FailState) -> (h: usize)
        ensures
            !old(self).is_pending(h as int),
            final(self).is_pending(h as int),
            final(self).pending_state(h as int) == state,
            forall|k: int| k != h ==> final(self).is_pending(k) == old(self).is_pending(k),
            forall|k: int|
                k != h && old(self).is_pending(k) ==> final(self).pending_state(k) == old(
                    self,
                ).pending_state(k),
            forall|k: int| 0 <= k < h ==> old(self).is_pending(k),
    {
        let n = self.slots.len();
        let mut num: usize = 0;
        while num < n
            invariant
                num <= n,
                n == self.slots@.len(),
                *self == *old(self),
                forall|k: int| 0 <= k < num ==> self.is_pending(k),
            decreases n - num,
        {
            if self.slots[num].is_none() {
                self.slots.set(num, Some(state));
                return num;
            }
            num = num + 1;
        }
        self.slots.push(Some(state));
        num
    }

    /// Removes the entry under `handle`, if present, and returns its
    /// recovery action.
    ///
    /// Firing a handle with no pending entry — a stale or duplicate timer
    /// event — is a no-op yielding `None`, never an error.
    pub fn fire(&mut self, handle: usize) -> (r: Option<FailState>)
        ensures
            old(self).is_pending(handle as int) ==> r == Some(
                old(self).pending_state(handle as int),
            ),
            !old(self).is_pending(handle as int) ==> r is None && *final(self) == *old(self),
            !final(self).is_pending(handle as int),
            forall|k: int| k != handle ==> final(self).is_pending(k) == old(self).is_pending(k),
            forall|k: int|
                k != handle && old(self).is_pending(k) ==> final(self).pending_state(k) == old(
                    self,
                ).pending_state(k),
    {
        if handle < self.slots.len() {
            let r = self.slots[handle];
            if r.is_some() {
                self.slots.set(handle, None);
                return r;
            }
        }
        None
    }
}

} // verus!
