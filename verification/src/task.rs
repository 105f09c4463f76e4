//! The state a task's waker shares with the executor.

use std::sync::atomic::{AtomicBool, Ordering};
use std::sync::Arc;

use vstd::prelude::*;

verus! {

/// The header a task's waker points to: whether the task is parked, and,
/// for wakers that track it, whether a wake-up is already pending.
#[derive(Debug)]
pub struct ImputioTaskHeader {
    parked: AtomicBool,
    state: Option<Arc<AtomicBool>>,
}

impl ImputioTaskHeader {
    /// A header of a task that is not parked, with no wake-up tracking.
    pub fn new() -> (h: Self)
        ensures
            h.spec_tracks_wakeups() == false,
    {
        ImputioTaskHeader { parked: AtomicBool::new(false), state: None }
    }

    /// A header of a task that is not parked, whose wake-ups are recorded
    /// in `state`.
    pub fn with_state(state: Arc<AtomicBool>) -> (h: Self)
        ensures
            h.spec_tracks_wakeups() == true,
    {
        ImputioTaskHeader { parked: AtomicBool::new(false), state: Some(state) }
    }

    /// Whether the waker records wake-ups in a shared flag.
    pub closed spec fn spec_tracks_wakeups(&self) -> bool {
        self.state is Some
    }

    /// Whether the task is parked right now.  Other threads may change the
    /// flag at any time, so nothing is claimed of the answer.
    pub fn is_parked(&self) -> bool {
        self.parked.load(Ordering::SeqCst)
    }
}

impl Default for ImputioTaskHeader {
    fn default() -> (h: Self)
        ensures
            h.spec_tracks_wakeups() == false,
    {
        ImputioTaskHeader::new()
    }
}

/// The waker of imputio tasks.
pub struct ImputioWaker;

impl ImputioWaker {
    /// Marks the task as runnable.
    pub fn unpark(inner: &ImputioTaskHeader) {
        inner.parked.store(false, Ordering::SeqCst);
    }

    /// Marks the task as parked.
    pub fn park(inner: &ImputioTaskHeader) {
        inner.parked.store(true, Ordering::SeqCst);
    }

    /// Wakes the task.  A waker that tracks wake-ups records the wake-up
    /// and unparks the task only when none was pending; one that does not
    /// track them always unparks.  Returns whether it unparked the task.
    pub fn wake(inner: &ImputioTaskHeader) -> (unparked: bool)
        ensures
            !inner.spec_tracks_wakeups() ==> unparked,
    {
        match &inner.state {
            Some(state) => {
                let was_pending = state.swap(true, Ordering::AcqRel);
                if !was_pending {
                    ImputioWaker::unpark(inner);
                    true
                } else {
                    false
                }
            },
            None => {
                ImputioWaker::unpark(inner);
                true
            },
        }
    }
}

} // verus!
